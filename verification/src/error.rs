//! The terminal outcomes of a validation pass.
//!
//! Every failure is distinguishable: host I/O outcomes map to one small code
//! range, and each rule violation has a code of its own, so that tooling
//! inspecting an exit code can tell a malformed record from an ineligible
//! voter or an out-of-range candidate.

use vstd::prelude::*;

verus! {

/// Outcome of a host accessor call, as surfaced by the ledger view.
///
/// `LengthNotEnough` is how the host reports a resource's true size when a
/// caller's buffer was undersized; it is only an error when it reaches the
/// end of a pass unconsumed.
#[derive(Clone, Copy, Debug, PartialEq, Eq, Structural)]
pub enum SysError {
    IndexOutOfBound,
    ItemMissing,
    LengthNotEnough(usize),
    Encoding,
    WaitFailure,
    Other,
}

/// A single terminal outcome of validating one transition.
#[derive(Clone, Copy, Debug, PartialEq, Eq, Structural)]
pub enum Error {
    /// A host accessor failed.
    Syscall(SysError),
    /// A record failed to decode.
    Molecule,
    /// The transition both creates and consumes vote cells.
    WrongTxType,
    /// The executing script's `args` is not exactly a 20-byte digest.
    WrongArgs,
    /// No dependency cell's locating handle hashes to the script's `args`.
    NoMetaCell,
    /// A hash field does not have the expected size.
    WrongHashSize,
    /// A membership proof failed against the committed eligibility root.
    VerifySmtFail,
    /// The identity a vote claims is not backed by any spent input.
    NoLockFound,
    /// A vote payload selects a candidate outside the declared range.
    WrongVoteCandidate,
}

/// The process exit code of each outcome: a stable contract with off-chain
/// tooling. Host I/O failures occupy 21 through 27; rule violations occupy
/// 51 through 58.
pub open spec fn spec_error_code(e: Error) -> i8 {
    match e {
        Error::Syscall(s) => match s {
            SysError::IndexOutOfBound => 21,
            SysError::ItemMissing => 22,
            SysError::LengthNotEnough(_) => 23,
            SysError::Encoding => 24,
            SysError::WaitFailure => 25,
            SysError::Other => 27,
        },
        Error::Molecule => 51,
        Error::WrongTxType => 52,
        Error::WrongArgs => 53,
        Error::NoMetaCell => 54,
        Error::WrongHashSize => 55,
        Error::VerifySmtFail => 56,
        Error::NoLockFound => 57,
        Error::WrongVoteCandidate => 58,
    }
}

impl Error {
    /// The exit code reported for this outcome.
    pub fn error_code(&self) -> (code: i8)
        ensures
            code == spec_error_code(*self),
    {
        match self {
            Error::Syscall(e) => match e {
                SysError::IndexOutOfBound => 21,
                SysError::ItemMissing => 22,
                SysError::LengthNotEnough(_) => 23,
                SysError::Encoding => 24,
                SysError::WaitFailure => 25,
                SysError::Other => 27,
            },
            Error::Molecule => 51,
            Error::WrongTxType => 52,
            Error::WrongArgs => 53,
            Error::NoMetaCell => 54,
            Error::WrongHashSize => 55,
            Error::VerifySmtFail => 56,
            Error::NoLockFound => 57,
            Error::WrongVoteCandidate => 58,
        }
    }
}

/// Every outcome's code is positive: success alone exits with zero.
pub proof fn lemma_error_code_nonzero(e: Error)
    ensures
        spec_error_code(e) > 0,
{
}

/// Every rule violation is distinguishable by its code alone; the host
/// I/O outcomes keep their own range, distinguished up to the length a
/// `LengthNotEnough` carries.
pub proof fn lemma_error_codes_distinct(e1: Error, e2: Error)
    requires
        e1 != e2,
        !(e1 matches Error::Syscall(_)),
        !(e2 matches Error::Syscall(_)),
    ensures
        spec_error_code(e1) != spec_error_code(e2),
{
}

/// Rule violations and host I/O outcomes never share a code.
pub proof fn lemma_error_code_ranges(e1: Error, e2: Error)
    requires
        e1 matches Error::Syscall(_),
        !(e2 matches Error::Syscall(_)),
    ensures
        spec_error_code(e1) < spec_error_code(e2),
{
}

} // verus!
