//! The validation pass over one transition.
//!
//! The classifier runs first: a transition that both consumes and creates
//! vote cells is rejected outright, and one that only consumes them is
//! accepted with no further checks — restricting who may spend a vote is
//! the lock script's business, not this script's. A creating transition
//! must then bind its `args` to one published metadata record, and every
//! created vote cell is checked in list order: its witness must decode, a
//! closed ballot demands a verifying membership proof, the claimed voter
//! identity must be backed by a spent input, and the selection payload must
//! stay within the declared candidates. The first failing cell ends the
//! pass.
//!
//! The presence check runs for open ballots too: even without an
//! eligibility set, a vote may only claim an identity that actually
//! authorized this transition by spending one of its inputs.
//!
//! A selection payload is exactly 4 bytes, read as a little-endian bitmask;
//! every set bit names one chosen candidate and must lie below the
//! declared candidate count.

use vstd::prelude::*;

use crate::cursor::{spec_le_u32, spec_read_all};
use crate::error::Error;
use crate::ledger::{
    Transition, TransitionV, count_input_matches, count_output_matches, has_input_lock, in_group,
    locate_meta_dep, spec_count_input_matches, spec_count_output_matches, spec_has_input_lock,
    spec_in_group, spec_locate_meta_dep,
};
use crate::molecules::{load_vote_meta, load_vote_proof, spec_load_vote_meta_ok, spec_load_vote_proof};
use crate::molecules::vote::{
    spec_meta_candidate_count, spec_meta_root, spec_proof_lock_hash, spec_proof_smt_proof,
};
use crate::smt::{check_membership, spec_smt_membership};

verus! {

/// Every set bit of a selection mask names a candidate below `count`.
pub open spec fn spec_mask_bits_ok(mask: u32, count: int) -> bool {
    forall|p: u32| #![auto] p < 32 && (mask >> p) & 1 == 1 ==> (p as int) < count
}

/// Check that every set bit of `mask` lies below `count`.
pub fn mask_bits_ok(mask: u32, count: usize) -> (r: bool)
    ensures
        r == spec_mask_bits_ok(mask, count as int),
{
    let mut p: u32 = 0;
    while p < 32
        invariant
            0 <= p <= 32,
            forall|q: u32| #![auto] q < p && (mask >> q) & 1 == 1 ==> (q as int) < count as int,
        decreases 32 - p,
    {
        if (mask >> p) & 1 == 1 {
            if p as usize >= count {
                assert(!spec_mask_bits_ok(mask, count as int));
                return false;
            }
        }
        p = p + 1;
    }
    true
}

/// The 4-byte little-endian selection mask of a vote cell's payload.
fn vote_mask(data: &Vec<u8>) -> (r: u32)
    requires
        data@.len() == 4,
    ensures
        r == spec_le_u32(data@, 0),
{
    let b0 = data[0] as u32;
    let b1 = data[1] as u32;
    let b2 = data[2] as u32;
    let b3 = data[3] as u32;
    b0 + b1 * 0x100 + b2 * 0x10000 + b3 * 0x1000000
}

/// The presence and candidate checks of one created vote cell, after its
/// membership stage passed: the claimed identity `h` must be backed by a
/// spent input, and the cell's payload must be a 4-byte mask selecting
/// only declared candidates.
pub open spec fn spec_check_vote_tail(
    t: TransitionV,
    meta: Seq<u8>,
    j: int,
    h: Seq<u8>,
) -> Result<(), Error> {
    if !spec_has_input_lock(t.inputs, h) {
        Err(Error::NoLockFound)
    } else if t.outputs[j].data.len() != 4 {
        Err(Error::WrongVoteCandidate)
    } else {
        let mask = spec_le_u32(t.outputs[j].data, 0);
        match spec_meta_candidate_count(meta, 0, meta.len() as int) {
            Err(_) => Err(Error::Molecule),
            Ok(count) => if !spec_mask_bits_ok(mask, count as int) {
                Err(Error::WrongVoteCandidate)
            } else {
                Ok(())
            },
        }
    }
}

/// The whole check of the created vote cell at output index `j`: its
/// witness must yield a proof record; under a declared root, the record's
/// membership proof must verify for the claimed identity; then the
/// presence and candidate checks run.
pub open spec fn spec_check_vote_cell(
    t: TransitionV,
    meta: Seq<u8>,
    root: Option<Seq<u8>>,
    j: int,
) -> Result<(), Error> {
    let w = t.outputs[j].witness;
    match spec_load_vote_proof(w) {
        Err(e) => Err(e),
        Ok(ps) => match spec_proof_lock_hash(w, ps.offset, ps.size) {
            Err(_) => Err(Error::Molecule),
            Ok(h) => match root {
                Some(rt) => match spec_proof_smt_proof(w, ps.offset, ps.size) {
                    Err(_) => Err(Error::Molecule),
                    Ok(pb) => match spec_read_all(w, pb.offset, pb.size) {
                        Err(_) => Err(Error::Molecule),
                        Ok(pbytes) => if !spec_smt_membership(rt, h, pbytes) {
                            Err(Error::VerifySmtFail)
                        } else {
                            spec_check_vote_tail(t, meta, j, h)
                        },
                    },
                },
                None => spec_check_vote_tail(t, meta, j, h),
            },
        },
    }
}

/// Check every created cell of the executing script's group from output
/// index `j` on, in list order; the first failure is the pass's outcome.
pub open spec fn spec_check_votes(
    t: TransitionV,
    meta: Seq<u8>,
    root: Option<Seq<u8>>,
    j: int,
) -> Result<(), Error>
    decreases t.outputs.len() - j,
{
    if j < 0 || j >= t.outputs.len() {
        Ok(())
    } else if spec_in_group(t.outputs[j].type_script, t.script) {
        match spec_check_vote_cell(t, meta, root, j) {
            Err(e) => Err(e),
            Ok(()) => spec_check_votes(t, meta, root, j + 1),
        }
    } else {
        spec_check_votes(t, meta, root, j + 1)
    }
}

/// The single terminal outcome of validating a transition.
///
/// Both sides carrying the script's identity is rejected as
/// `WrongTxType`; pure consumption is accepted unconditionally. Otherwise
/// the transition creates votes: its `args` must be a 20-byte digest
/// naming, by its locating handle's short digest, a dependency cell whose
/// data holds a well-formed metadata record; then every created vote cell
/// must pass [`spec_check_vote_cell`].
pub open spec fn spec_entry(t: TransitionV) -> Result<(), Error> {
    let ins = spec_count_input_matches(t.inputs, t.script);
    let outs = spec_count_output_matches(t.outputs, t.script);
    if ins > 0 && outs > 0 {
        Err(Error::WrongTxType)
    } else if ins > 0 {
        Ok(())
    } else if t.script.args.len() != 20 {
        Err(Error::WrongArgs)
    } else {
        match spec_locate_meta_dep(t.deps, t.script.args) {
            None => Err(Error::NoMetaCell),
            Some(d) => {
                let meta = t.deps[d].data;
                if !spec_load_vote_meta_ok(meta) {
                    Err(Error::Molecule)
                } else {
                    match spec_meta_root(meta, 0, meta.len() as int) {
                        Err(_) => Err(Error::Molecule),
                        Ok(root) => spec_check_votes(t, meta, root, 0),
                    }
                }
            },
        }
    }
}

/// Validate one transition; the returned value is exactly
/// [`spec_entry`] of its image.
pub fn entry(tx: &Transition) -> (r: Result<(), Error>)
    ensures
        r == spec_entry(tx@),
{
    let ghost tv = tx@;
    let ins = count_input_matches(&tx.inputs, &tx.script);
    let outs = count_output_matches(&tx.outputs, &tx.script);
    if ins > 0 && outs > 0 {
        return Err(Error::WrongTxType);
    }
    if ins > 0 {
        return Ok(());
    }
    if tx.script.args.len() != 20 {
        return Err(Error::WrongArgs);
    }
    let position = match locate_meta_dep(&tx.deps, &tx.script.args) {
        Some(p) => p,
        None => return Err(Error::NoMetaCell),
    };
    let ghost dep_pos = position as int;
    let meta_data: &Vec<u8> = &tx.deps[position].data;
    let ghost metab = meta_data@;
    assert(metab == tv.deps[dep_pos].data);
    let vote_meta = match load_vote_meta(meta_data) {
        Ok(m) => m,
        Err(e) => return Err(e),
    };
    let root = match vote_meta.smt_root_hash() {
        Ok(r) => r,
        Err(_) => return Err(Error::Molecule),
    };
    let ghost rootv: Option<Seq<u8>> = match &root {
        Option::Some(v) => Option::Some(v@),
        Option::None => Option::None,
    };
    assert(spec_meta_root(metab, 0, metab.len() as int) == Ok::<Option<Seq<u8>>, crate::cursor::DecodeError>(rootv));
    assert(spec_entry(tv) == spec_check_votes(tv, metab, rootv, 0));
    let n = tx.outputs.len();
    let mut j: usize = 0;
    while j < n
        invariant
            0 <= j <= n,
            n == tv.outputs.len(),
            tv == tx@,
            0 <= dep_pos < tv.deps.len(),
            metab == tv.deps[dep_pos].data,
            vote_meta.cursor.buf@ == metab,
            vote_meta.cursor.offset == 0,
            vote_meta.cursor.size == metab.len(),
            spec_load_vote_meta_ok(metab),
            ({
                match root {
                    Option::Some(v) => rootv == Option::Some(v@) && v@.len() == 32,
                    Option::None => rootv == Option::None::<Seq<u8>>,
                }
            }),
            spec_entry(tv) == spec_check_votes(tv, metab, rootv, j as int),
        decreases n - j,
    {
        let out = &tx.outputs[j];
        assert(out@ == tv.outputs[j as int]);
        if in_group(&out.type_script, &tx.script) {
            let proof = match load_vote_proof(&out.witness) {
                Ok(p) => p,
                Err(e) => return Err(e),
            };
            let hash = match proof.lock_script_hash() {
                Ok(h) => h,
                Err(_) => return Err(Error::Molecule),
            };
            if let Some(rt) = &root {
                let pcur = match proof.smt_proof() {
                    Ok(c) => c,
                    Err(_) => return Err(Error::Molecule),
                };
                let pbytes = match pcur.read_all() {
                    Ok(v) => v,
                    Err(_) => return Err(Error::Molecule),
                };
                if !check_membership(rt, &hash, &pbytes) {
                    return Err(Error::VerifySmtFail);
                }
            }
            if !has_input_lock(&tx.inputs, &hash) {
                return Err(Error::NoLockFound);
            }
            if out.data.len() != 4 {
                return Err(Error::WrongVoteCandidate);
            }
            let mask = vote_mask(&out.data);
            let candidates = match vote_meta.candidates() {
                Ok(c) => c,
                Err(_) => return Err(Error::Molecule),
            };
            let count = match candidates.len() {
                Ok(c) => c,
                Err(_) => return Err(Error::Molecule),
            };
            if !mask_bits_ok(mask, count) {
                return Err(Error::WrongVoteCandidate);
            }
        }
        assert(spec_check_votes(tv, metab, rootv, j as int) == spec_check_votes(
            tv,
            metab,
            rootv,
            j + 1,
        ));
        j = j + 1;
    }
    Ok(())
}

} // verus!
