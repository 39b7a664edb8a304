//! On-ledger validation of a ballot mechanism over a UTXO-style cell model.
//!
//! The crate decides whether a transition that creates or consumes vote cells
//! is legal: vote cells are either purely created or purely consumed; a
//! created vote is bound through the script's `args` to one published
//! metadata record; closed ballots demand a sparse-Merkle-tree membership
//! proof per vote; the claimed voter identity must be backed by a spent
//! input; and the candidate selection must stay within the declared bounds.

pub mod cursor;
pub mod entry;
pub mod error;
pub mod hash;
pub mod laws;
pub mod ledger;
pub mod molecules;
pub mod smt;

pub use error::{Error, SysError};
