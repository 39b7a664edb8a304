//! The validator's guarantees, stated and proved once and for all
//! transitions.
//!
//! Each law here is a theorem about [`spec_entry`], which
//! [`crate::entry::entry`] is proved to compute exactly; together they pin
//! down the decision table of the classifier, the binding of a creating
//! transition to its metadata record, the anti-spoofing rule, the candidate
//! bounds, and the fail-fast order over multiple votes.

use vstd::prelude::*;

use crate::cursor::{DecodeError, SpecSlice, spec_le_u32, spec_read_all};
use crate::entry::{
    spec_check_vote_cell, spec_check_vote_tail, spec_check_votes, spec_entry, spec_mask_bits_ok,
};
use crate::error::Error;
use crate::hash::blake160_of;
use crate::ledger::{
    TransitionV, lemma_count_input_positive, lemma_count_output_positive, lemma_no_matching_dep,
    spec_count_input_matches, spec_count_output_matches, spec_has_input_lock, spec_in_group,
    spec_locate_meta_dep, spec_matches_identity,
};
use crate::molecules::{spec_load_vote_meta_ok, spec_load_vote_proof};
use crate::molecules::vote::{
    spec_meta_candidate_count, spec_meta_root, spec_proof_lock_hash, spec_proof_smt_proof,
};
use crate::smt::spec_smt_membership;

verus! {

/// Classification is exclusive: when both a consumed and a created cell
/// carry the executing script's identity, the outcome is `WrongTxType`,
/// regardless of every other field of the transition.
pub proof fn lemma_classification_exclusivity(t: TransitionV, i: int, j: int)
    requires
        0 <= i < t.inputs.len(),
        spec_matches_identity(t.inputs[i].type_script, t.script),
        0 <= j < t.outputs.len(),
        spec_matches_identity(t.outputs[j].type_script, t.script),
    ensures
        spec_entry(t) == Err::<(), Error>(Error::WrongTxType),
{
    lemma_count_input_positive(t.inputs, t.script, i);
    lemma_count_output_positive(t.outputs, t.script, j);
}

/// Consumption is unconditional: a transition that only consumes vote
/// cells is accepted, whatever its dependencies, witnesses or payloads
/// hold.
pub proof fn lemma_consumption_unconditional(t: TransitionV)
    requires
        spec_count_input_matches(t.inputs, t.script) > 0,
        spec_count_output_matches(t.outputs, t.script) == 0,
    ensures
        spec_entry(t) == Ok::<(), Error>(()),
{
}

/// A creating transition whose `args` is not exactly 20 bytes is rejected
/// as `WrongArgs` before anything else is looked at.
pub proof fn lemma_args_length(t: TransitionV)
    requires
        spec_count_input_matches(t.inputs, t.script) == 0,
        t.script.args.len() != 20,
    ensures
        spec_entry(t) == Err::<(), Error>(Error::WrongArgs),
{
}

/// Args binding: when no dependency's locating handle hashes to the
/// script's 20-byte `args`, a creating transition is rejected as
/// `NoMetaCell`.
pub proof fn lemma_args_binding(t: TransitionV)
    requires
        spec_count_input_matches(t.inputs, t.script) == 0,
        t.script.args.len() == 20,
        forall|d: int|
            0 <= d < t.deps.len() ==> #[trigger] blake160_of(t.deps[d].out_point) != t.script.args,
    ensures
        spec_entry(t) == Err::<(), Error>(Error::NoMetaCell),
{
    lemma_no_matching_dep(t.deps, t.script.args, 0);
}

/// Anti-spoofing: a vote cell whose proof record claims an identity that
/// no consumed input's lock-script hash backs is rejected as
/// `NoLockFound` — even when its membership proof verifies against the
/// committed root.
pub proof fn lemma_anti_spoofing(
    t: TransitionV,
    meta: Seq<u8>,
    rt: Seq<u8>,
    j: int,
    ps: SpecSlice,
    h: Seq<u8>,
    pb: SpecSlice,
    pbytes: Seq<u8>,
)
    requires
        0 <= j < t.outputs.len(),
        spec_load_vote_proof(t.outputs[j].witness) == Ok::<SpecSlice, Error>(ps),
        spec_proof_lock_hash(t.outputs[j].witness, ps.offset, ps.size) == Ok::<Seq<u8>, DecodeError>(
            h,
        ),
        spec_proof_smt_proof(t.outputs[j].witness, ps.offset, ps.size) == Ok::<
            SpecSlice,
            DecodeError,
        >(pb),
        spec_read_all(t.outputs[j].witness, pb.offset, pb.size) == Ok::<Seq<u8>, DecodeError>(
            pbytes,
        ),
        spec_smt_membership(rt, h, pbytes),
        !spec_has_input_lock(t.inputs, h),
    ensures
        spec_check_vote_cell(t, meta, Some(rt), j) == Err::<(), Error>(Error::NoLockFound),
{
}

/// The same anti-spoofing rule holds on an open ballot: without a
/// committed root, a vote claiming an unbacked identity is still rejected
/// as `NoLockFound`.
pub proof fn lemma_anti_spoofing_open(
    t: TransitionV,
    meta: Seq<u8>,
    j: int,
    ps: SpecSlice,
    h: Seq<u8>,
)
    requires
        0 <= j < t.outputs.len(),
        spec_load_vote_proof(t.outputs[j].witness) == Ok::<SpecSlice, Error>(ps),
        spec_proof_lock_hash(t.outputs[j].witness, ps.offset, ps.size) == Ok::<Seq<u8>, DecodeError>(
            h,
        ),
        !spec_has_input_lock(t.inputs, h),
    ensures
        spec_check_vote_cell(t, meta, None, j) == Err::<(), Error>(Error::NoLockFound),
{
}

/// Candidate bounds: once a vote cell's identity is backed by an input,
/// its payload decides the outcome — a payload that is not exactly 4
/// bytes, or whose mask selects any candidate at or beyond the declared
/// count, is `WrongVoteCandidate`; a mask selecting only declared
/// candidates is accepted.
pub proof fn lemma_candidate_bounds(t: TransitionV, meta: Seq<u8>, j: int, h: Seq<u8>, count: usize)
    requires
        0 <= j < t.outputs.len(),
        spec_has_input_lock(t.inputs, h),
        spec_meta_candidate_count(meta, 0, meta.len() as int) == Ok::<usize, DecodeError>(count),
    ensures
        t.outputs[j].data.len() != 4 ==> spec_check_vote_tail(t, meta, j, h) == Err::<(), Error>(
            Error::WrongVoteCandidate,
        ),
        t.outputs[j].data.len() == 4 && !spec_mask_bits_ok(
            spec_le_u32(t.outputs[j].data, 0),
            count as int,
        ) ==> spec_check_vote_tail(t, meta, j, h) == Err::<(), Error>(Error::WrongVoteCandidate),
        t.outputs[j].data.len() == 4 && spec_mask_bits_ok(
            spec_le_u32(t.outputs[j].data, 0),
            count as int,
        ) ==> spec_check_vote_tail(t, meta, j, h) == Ok::<(), Error>(()),
{
}

/// A view that passed the dynamic-vector check always yields its length:
/// the envelope check already read everything the length derives from.
pub proof fn lemma_dynvec_length_after_verify(b: Seq<u8>, pos: int, csize: int)
    requires
        b.len() <= usize::MAX,
        crate::cursor::spec_verify_dynvec(b, pos, csize) is Ok,
    ensures
        crate::cursor::spec_dynvec_length(b, pos, csize) is Ok,
{
}

/// A loaded metadata record always yields its candidate count: the
/// decode fallback in the candidate stage of [`spec_check_vote_tail`] can
/// never fire for a record that passed loading.
pub proof fn lemma_loaded_meta_candidate_count(b: Seq<u8>)
    requires
        b.len() <= usize::MAX,
        spec_load_vote_meta_ok(b),
    ensures
        spec_meta_candidate_count(b, 0, b.len() as int) is Ok,
{
    let cand = crate::molecules::vote::spec_meta_candidates(b, 0, b.len() as int);
    lemma_dynvec_length_after_verify(b, cand->Ok_0.offset, cand->Ok_0.size);
}

/// A loaded proof record always yields its claimed identity, and that
/// identity is exactly 32 bytes.
pub proof fn lemma_loaded_proof_lock_hash(b: Seq<u8>, ps: SpecSlice)
    requires
        spec_load_vote_proof(b) == Ok::<SpecSlice, Error>(ps),
    ensures
        spec_proof_lock_hash(b, ps.offset, ps.size) is Ok,
        spec_proof_lock_hash(b, ps.offset, ps.size)->Ok_0.len() == 32,
{
}

/// On the creation path, once the metadata record is located, decodes,
/// and yields its root field, the outcome is exactly the walk over the
/// created vote cells.
pub proof fn lemma_creation_outcome(t: TransitionV, d: int, root: Option<Seq<u8>>)
    requires
        spec_count_input_matches(t.inputs, t.script) == 0,
        t.script.args.len() == 20,
        spec_locate_meta_dep(t.deps, t.script.args) == Some(d),
        spec_load_vote_meta_ok(t.deps[d].data),
        spec_meta_root(t.deps[d].data, 0, t.deps[d].data.len() as int) == Ok::<
            Option<Seq<u8>>,
            DecodeError,
        >(root),
    ensures
        spec_entry(t) == spec_check_votes(t, t.deps[d].data, root, 0),
{
}

/// Fail-fast over multiple votes: when every vote cell before output `j`
/// passes and the cell at `j` fails, the whole pass reports cell `j`'s
/// error — later cells, however malformed, are never consulted.
pub proof fn lemma_fail_fast(
    t: TransitionV,
    meta: Seq<u8>,
    root: Option<Seq<u8>>,
    j: int,
    e: Error,
)
    requires
        0 <= j < t.outputs.len(),
        spec_in_group(t.outputs[j].type_script, t.script),
        spec_check_vote_cell(t, meta, root, j) == Err::<(), Error>(e),
        forall|k: int|
            0 <= k < j && spec_in_group(t.outputs[k].type_script, t.script)
                ==> spec_check_vote_cell(t, meta, root, k) == Ok::<(), Error>(()),
    ensures
        spec_check_votes(t, meta, root, 0) == Err::<(), Error>(e),
{
    lemma_fail_fast_from(t, meta, root, 0, j, e);
}

/// The inductive step behind [`lemma_fail_fast`]: the walk from any index
/// `i` at or before the first failing cell reports that cell's error.
proof fn lemma_fail_fast_from(
    t: TransitionV,
    meta: Seq<u8>,
    root: Option<Seq<u8>>,
    i: int,
    j: int,
    e: Error,
)
    requires
        0 <= i <= j < t.outputs.len(),
        spec_in_group(t.outputs[j].type_script, t.script),
        spec_check_vote_cell(t, meta, root, j) == Err::<(), Error>(e),
        forall|k: int|
            i <= k < j && spec_in_group(t.outputs[k].type_script, t.script)
                ==> spec_check_vote_cell(t, meta, root, k) == Ok::<(), Error>(()),
    ensures
        spec_check_votes(t, meta, root, i) == Err::<(), Error>(e),
    decreases j - i,
{
    if i < j {
        lemma_fail_fast_from(t, meta, root, i + 1, j, e);
    }
}

} // verus!
