//! The short identity digest.
//!
//! A dependency cell is identified by hashing its locating handle down to
//! 20 bytes; the executing script's `args` commits to exactly this digest.

use vstd::prelude::*;

verus! {

/// The 20-byte short identity digest of a byte string: the first 20 bytes
/// of the ledger's 32-byte personalized blake2b digest. The digest is a
/// function of the input bytes alone.
pub uninterp spec fn blake160_of(data: Seq<u8>) -> Seq<u8>;

/// Relies on `ckb_hash::blake2b_256`: a 32-byte blake2b digest of the
/// input, personalized with the ledger's domain string, depending on the
/// input bytes alone. The short digest keeps its first 20 bytes.
#[verifier::external_body]
pub(crate) fn blake160(data: &Vec<u8>) -> (r: Vec<u8>)
    ensures
        r@ == blake160_of(data@),
        r@.len() == 20,
{
    let digest = ckb_hash::blake2b_256(data.as_slice());
    digest[0..20].to_vec()
}

} // verus!
