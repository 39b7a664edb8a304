//! Loading the ballot records out of raw host bytes.
//!
//! The host hands over a cell's data or a witness as one byte buffer; the
//! loaders here wrap it in a cursor, check the record's envelope, and
//! return the typed reader. Any decode failure collapses into the single
//! opaque [`Error::Molecule`] outcome.

pub mod vote;

use vstd::prelude::*;

use crate::cursor::{Cursor, SpecSlice};
use crate::error::Error;
use vote::{
    VoteMeta, VoteProof, WitnessArgs, spec_meta_verify, spec_proof_verify, spec_witness_slot,
    spec_witness_verify,
};

verus! {

/// Whether a buffer holds a well-formed metadata record.
pub open spec fn spec_load_vote_meta_ok(b: Seq<u8>) -> bool {
    spec_meta_verify(b, 0, b.len() as int, false) is Ok
}

/// Whether a buffer holds a well-formed witness envelope.
pub open spec fn spec_load_witness_args_ok(b: Seq<u8>) -> bool {
    spec_witness_verify(b, 0, b.len() as int, false) is Ok
}

/// What loading a proof record out of a witness buffer yields: the view of
/// the record inside the buffer, or the opaque decode failure. The witness
/// envelope must parse, its `output_type` slot must be present, and the
/// record's own envelope must parse.
pub open spec fn spec_load_vote_proof(b: Seq<u8>) -> Result<SpecSlice, Error> {
    if !(spec_witness_verify(b, 0, b.len() as int, false) is Ok) {
        Err(Error::Molecule)
    } else {
        match spec_witness_slot(b, 0, b.len() as int, 2) {
            Err(_) => Err(Error::Molecule),
            Ok(None) => Err(Error::Molecule),
            Ok(Some(s)) => if spec_proof_verify(b, s.offset, s.size, false) is Ok {
                Ok(s)
            } else {
                Err(Error::Molecule)
            },
        }
    }
}

/// Wrap a witness buffer and check its envelope.
pub fn load_witness_args<'a>(witness: &'a Vec<u8>) -> (r: Result<WitnessArgs<'a>, Error>)
    ensures
        r matches Ok(w) ==> spec_load_witness_args_ok(witness@) && w.cursor.buf@ == witness@
            && w.cursor.offset == 0 && w.cursor.size == witness@.len(),
        r is Err ==> !spec_load_witness_args_ok(witness@) && r == Err::<WitnessArgs<'a>, Error>(
            Error::Molecule,
        ),
{
    let cursor = Cursor::new(witness);
    let witness_args = WitnessArgs::new(cursor);
    match witness_args.verify(false) {
        Ok(()) => Ok(witness_args),
        Err(_) => Err(Error::Molecule),
    }
}

/// Load the proof record a created vote cell's witness carries in its
/// `output_type` slot.
pub fn load_vote_proof<'a>(witness: &'a Vec<u8>) -> (r: Result<VoteProof<'a>, Error>)
    ensures
        ({
            let s = spec_load_vote_proof(witness@);
            match r {
                Ok(p) => p.cursor.buf@ == witness@ && s == Ok::<SpecSlice, Error>(p.cursor.slice()),
                Err(e) => s == Err::<SpecSlice, Error>(e),
            }
        }),
{
    let witness_args = match load_witness_args(witness) {
        Ok(w) => w,
        Err(e) => return Err(e),
    };
    let output_type = match witness_args.output_type() {
        Ok(o) => o,
        Err(_) => return Err(Error::Molecule),
    };
    let cur = match output_type {
        Some(c) => c,
        None => return Err(Error::Molecule),
    };
    let proof = VoteProof::new(cur);
    match proof.verify(false) {
        Ok(()) => Ok(proof),
        Err(_) => Err(Error::Molecule),
    }
}

/// Wrap a dependency cell's data and check that it holds a well-formed
/// metadata record.
pub fn load_vote_meta<'a>(data: &'a Vec<u8>) -> (r: Result<VoteMeta<'a>, Error>)
    ensures
        r matches Ok(m) ==> spec_load_vote_meta_ok(data@) && m.cursor.buf@ == data@
            && m.cursor.offset == 0 && m.cursor.size == data@.len(),
        r is Err ==> !spec_load_vote_meta_ok(data@) && r == Err::<VoteMeta<'a>, Error>(
            Error::Molecule,
        ),
{
    let cursor = Cursor::new(data);
    let meta = VoteMeta::new(cursor);
    match meta.verify(false) {
        Ok(()) => Ok(meta),
        Err(_) => Err(Error::Molecule),
    }
}

} // verus!
