//! A transition as the validator sees it through the ledger view.
//!
//! The host exposes indexed accessors for the executing script, the cells a
//! transition consumes and creates, their witnesses, and the read-only
//! dependency cells. The driver gathers those plain values into a
//! [`Transition`]; everything the validation rules consult is here, and
//! nothing else.

use vstd::prelude::*;

use crate::hash::{blake160, blake160_of};

verus! {

/// A script identity: the code it names, how the code is resolved, and its
/// parameters. The vote script's `args` carries the 20-byte digest binding
/// it to one metadata dependency.
#[derive(Clone, Debug)]
pub struct Script {
    pub code_hash: Vec<u8>,
    pub hash_type: u8,
    pub args: Vec<u8>,
}

/// The mathematical image of a [`Script`].
pub struct ScriptV {
    pub code_hash: Seq<u8>,
    pub hash_type: u8,
    pub args: Seq<u8>,
}

impl View for Script {
    type V = ScriptV;

    open spec fn view(&self) -> ScriptV {
        ScriptV { code_hash: self.code_hash@, hash_type: self.hash_type, args: self.args@ }
    }
}

/// The image of an optional type script.
pub open spec fn spec_opt_script(o: Option<Script>) -> Option<ScriptV> {
    match o {
        None => None,
        Some(s) => Some(s@),
    }
}

/// A consumed cell: its optional type script and the hash of the lock
/// script that authorized spending it.
#[derive(Clone, Debug)]
pub struct InputCell {
    pub type_script: Option<Script>,
    pub lock_hash: Vec<u8>,
}

/// The mathematical image of an [`InputCell`].
pub struct InputCellV {
    pub type_script: Option<ScriptV>,
    pub lock_hash: Seq<u8>,
}

impl View for InputCell {
    type V = InputCellV;

    open spec fn view(&self) -> InputCellV {
        InputCellV { type_script: spec_opt_script(self.type_script), lock_hash: self.lock_hash@ }
    }
}

/// A created cell: its optional type script, its data payload, and the
/// witness that travels with it.
#[derive(Clone, Debug)]
pub struct OutputCell {
    pub type_script: Option<Script>,
    pub data: Vec<u8>,
    pub witness: Vec<u8>,
}

/// The mathematical image of an [`OutputCell`].
pub struct OutputCellV {
    pub type_script: Option<ScriptV>,
    pub data: Seq<u8>,
    pub witness: Seq<u8>,
}

impl View for OutputCell {
    type V = OutputCellV;

    open spec fn view(&self) -> OutputCellV {
        OutputCellV {
            type_script: spec_opt_script(self.type_script),
            data: self.data@,
            witness: self.witness@,
        }
    }
}

/// A read-only dependency cell: the byte encoding of its locating handle
/// (which prior cell it references) and its data payload.
#[derive(Clone, Debug)]
pub struct DepCell {
    pub out_point: Vec<u8>,
    pub data: Vec<u8>,
}

/// The mathematical image of a [`DepCell`].
pub struct DepCellV {
    pub out_point: Seq<u8>,
    pub data: Seq<u8>,
}

impl View for DepCell {
    type V = DepCellV;

    open spec fn view(&self) -> DepCellV {
        DepCellV { out_point: self.out_point@, data: self.data@ }
    }
}

/// Everything of one transition the validator reads: the executing
/// script's identity, the consumed and created cells in list order, and
/// the dependency cells in list order.
#[derive(Clone, Debug)]
pub struct Transition {
    pub script: Script,
    pub inputs: Vec<InputCell>,
    pub outputs: Vec<OutputCell>,
    pub deps: Vec<DepCell>,
}

/// The mathematical image of a [`Transition`].
pub struct TransitionV {
    pub script: ScriptV,
    pub inputs: Seq<InputCellV>,
    pub outputs: Seq<OutputCellV>,
    pub deps: Seq<DepCellV>,
}

impl View for Transition {
    type V = TransitionV;

    open spec fn view(&self) -> TransitionV {
        TransitionV {
            script: self.script@,
            inputs: Seq::new(self.inputs@.len(), |i: int| self.inputs@[i]@),
            outputs: Seq::new(self.outputs@.len(), |i: int| self.outputs@[i]@),
            deps: Seq::new(self.deps@.len(), |i: int| self.deps@[i]@),
        }
    }
}

/// Whether two byte strings are equal.
pub fn bytes_eq(a: &Vec<u8>, b: &Vec<u8>) -> (r: bool)
    ensures
        r == (a@ == b@),
{
    if a.len() != b.len() {
        assert(a@ != b@);
        return false;
    }
    let n = a.len();
    let mut i: usize = 0;
    while i < n
        invariant
            0 <= i <= n,
            n == a@.len(),
            n == b@.len(),
            forall|j: int| 0 <= j < i ==> a@[j] == b@[j],
        decreases n - i,
    {
        if a[i] != b[i] {
            return false;
        }
        i = i + 1;
    }
    assert(a@ =~= b@);
    true
}

/// Whether a cell's type script carries the executing script's code
/// identity — the comparison the classifier makes, blind to `args`.
pub open spec fn spec_matches_identity(ts: Option<ScriptV>, s: ScriptV) -> bool {
    match ts {
        None => false,
        Some(t) => t.code_hash == s.code_hash && t.hash_type == s.hash_type,
    }
}

/// Whether a cell is in the executing script's group: its type script is
/// the executing script, `args` included.
pub open spec fn spec_in_group(ts: Option<ScriptV>, s: ScriptV) -> bool {
    match ts {
        None => false,
        Some(t) => t.code_hash == s.code_hash && t.hash_type == s.hash_type && t.args == s.args,
    }
}

/// Whether `ts` carries the code identity of `s`.
pub fn matches_identity(ts: &Option<Script>, s: &Script) -> (r: bool)
    ensures
        r == spec_matches_identity(spec_opt_script(*ts), s@),
{
    match ts {
        None => false,
        Some(t) => bytes_eq(&t.code_hash, &s.code_hash) && t.hash_type == s.hash_type,
    }
}

/// Whether `ts` is exactly the script `s`.
pub fn in_group(ts: &Option<Script>, s: &Script) -> (r: bool)
    ensures
        r == spec_in_group(spec_opt_script(*ts), s@),
{
    match ts {
        None => false,
        Some(t) => bytes_eq(&t.code_hash, &s.code_hash) && t.hash_type == s.hash_type && bytes_eq(
            &t.args,
            &s.args,
        ),
    }
}

/// How many consumed cells carry the executing script's code identity.
pub open spec fn spec_count_input_matches(inputs: Seq<InputCellV>, s: ScriptV) -> int
    decreases inputs.len(),
{
    if inputs.len() == 0 {
        0
    } else {
        spec_count_input_matches(inputs.drop_last(), s) + if spec_matches_identity(
            inputs.last().type_script,
            s,
        ) {
            1int
        } else {
            0int
        }
    }
}

/// How many created cells carry the executing script's code identity.
pub open spec fn spec_count_output_matches(outputs: Seq<OutputCellV>, s: ScriptV) -> int
    decreases outputs.len(),
{
    if outputs.len() == 0 {
        0
    } else {
        spec_count_output_matches(outputs.drop_last(), s) + if spec_matches_identity(
            outputs.last().type_script,
            s,
        ) {
            1int
        } else {
            0int
        }
    }
}

/// Count the consumed cells guarded by the executing script's code
/// identity.
pub fn count_input_matches(inputs: &Vec<InputCell>, s: &Script) -> (count: usize)
    ensures
        count == spec_count_input_matches(Seq::new(inputs@.len(), |i: int| inputs@[i]@), s@),
{
    let ghost iv = Seq::new(inputs@.len(), |i: int| inputs@[i]@);
    let n = inputs.len();
    let mut count: usize = 0;
    let mut i: usize = 0;
    while i < n
        invariant
            0 <= i <= n,
            n == inputs@.len(),
            iv == Seq::new(inputs@.len(), |k: int| inputs@[k]@),
            count <= i,
            count == spec_count_input_matches(iv.take(i as int), s@),
        decreases n - i,
    {
        if matches_identity(&inputs[i].type_script, s) {
            count = count + 1;
        }
        assert(iv.take(i + 1).drop_last() =~= iv.take(i as int));
        assert(iv.take(i + 1).last() == iv[i as int]);
        i = i + 1;
    }
    assert(iv.take(n as int) =~= iv);
    count
}

/// Count the created cells guarded by the executing script's code
/// identity.
pub fn count_output_matches(outputs: &Vec<OutputCell>, s: &Script) -> (count: usize)
    ensures
        count == spec_count_output_matches(Seq::new(outputs@.len(), |i: int| outputs@[i]@), s@),
{
    let ghost ov = Seq::new(outputs@.len(), |i: int| outputs@[i]@);
    let n = outputs.len();
    let mut count: usize = 0;
    let mut i: usize = 0;
    while i < n
        invariant
            0 <= i <= n,
            n == outputs@.len(),
            ov == Seq::new(outputs@.len(), |k: int| outputs@[k]@),
            count <= i,
            count == spec_count_output_matches(ov.take(i as int), s@),
        decreases n - i,
    {
        if matches_identity(&outputs[i].type_script, s) {
            count = count + 1;
        }
        assert(ov.take(i + 1).drop_last() =~= ov.take(i as int));
        assert(ov.take(i + 1).last() == ov[i as int]);
        i = i + 1;
    }
    assert(ov.take(n as int) =~= ov);
    count
}

/// Whether some consumed cell's lock-script hash equals `h` — the claimed
/// voter identity is backed by a spent input.
pub open spec fn spec_has_input_lock(inputs: Seq<InputCellV>, h: Seq<u8>) -> bool {
    exists|i: int| 0 <= i < inputs.len() && inputs[i].lock_hash == h
}

/// Whether some consumed cell's lock-script hash equals `h`.
pub fn has_input_lock(inputs: &Vec<InputCell>, h: &Vec<u8>) -> (r: bool)
    ensures
        r == spec_has_input_lock(Seq::new(inputs@.len(), |i: int| inputs@[i]@), h@),
{
    let ghost iv = Seq::new(inputs@.len(), |i: int| inputs@[i]@);
    let n = inputs.len();
    let mut i: usize = 0;
    while i < n
        invariant
            0 <= i <= n,
            n == inputs@.len(),
            iv == Seq::new(inputs@.len(), |k: int| inputs@[k]@),
            forall|j: int| 0 <= j < i ==> iv[j].lock_hash != h@,
        decreases n - i,
    {
        if bytes_eq(&inputs[i].lock_hash, h) {
            assert(iv[i as int].lock_hash == h@);
            return true;
        }
        i = i + 1;
    }
    false
}

/// A match count is never negative.
pub proof fn lemma_count_input_nonneg(inputs: Seq<InputCellV>, s: ScriptV)
    ensures
        spec_count_input_matches(inputs, s) >= 0,
    decreases inputs.len(),
{
    if inputs.len() > 0 {
        lemma_count_input_nonneg(inputs.drop_last(), s);
    }
}

/// A match count is never negative.
pub proof fn lemma_count_output_nonneg(outputs: Seq<OutputCellV>, s: ScriptV)
    ensures
        spec_count_output_matches(outputs, s) >= 0,
    decreases outputs.len(),
{
    if outputs.len() > 0 {
        lemma_count_output_nonneg(outputs.drop_last(), s);
    }
}

/// One consumed cell carrying the script's identity makes the input match
/// count positive.
pub proof fn lemma_count_input_positive(inputs: Seq<InputCellV>, s: ScriptV, i: int)
    requires
        0 <= i < inputs.len(),
        spec_matches_identity(inputs[i].type_script, s),
    ensures
        spec_count_input_matches(inputs, s) > 0,
    decreases inputs.len(),
{
    if i == inputs.len() - 1 {
        lemma_count_input_nonneg(inputs.drop_last(), s);
    } else {
        lemma_count_input_positive(inputs.drop_last(), s, i);
    }
}

/// One created cell carrying the script's identity makes the output match
/// count positive.
pub proof fn lemma_count_output_positive(outputs: Seq<OutputCellV>, s: ScriptV, i: int)
    requires
        0 <= i < outputs.len(),
        spec_matches_identity(outputs[i].type_script, s),
    ensures
        spec_count_output_matches(outputs, s) > 0,
    decreases outputs.len(),
{
    if i == outputs.len() - 1 {
        lemma_count_output_nonneg(outputs.drop_last(), s);
    } else {
        lemma_count_output_positive(outputs.drop_last(), s, i);
    }
}

/// The first dependency index at or after `i` whose locating handle's
/// short digest equals `args`, if any.
pub open spec fn spec_first_matching_dep(deps: Seq<DepCellV>, args: Seq<u8>, i: int) -> Option<int>
    decreases deps.len() - i,
{
    if i < 0 || i >= deps.len() {
        None
    } else if blake160_of(deps[i].out_point) == args {
        Some(i)
    } else {
        spec_first_matching_dep(deps, args, i + 1)
    }
}

/// The dependency the script's `args` commits to: the first, in list
/// order, whose locating handle hashes to `args`.
pub open spec fn spec_locate_meta_dep(deps: Seq<DepCellV>, args: Seq<u8>) -> Option<int> {
    spec_first_matching_dep(deps, args, 0)
}

/// When no dependency's digest equals `args` from `i` on, the scan finds
/// nothing.
pub proof fn lemma_no_matching_dep(deps: Seq<DepCellV>, args: Seq<u8>, i: int)
    requires
        forall|d: int| i <= d < deps.len() ==> #[trigger] blake160_of(deps[d].out_point) != args,
    ensures
        spec_first_matching_dep(deps, args, i) is None,
    decreases deps.len() - i,
{
    if 0 <= i < deps.len() {
        lemma_no_matching_dep(deps, args, i + 1);
    }
}

/// Scan the dependency list for the cell the script's `args` commits to;
/// the first match wins.
pub fn locate_meta_dep(deps: &Vec<DepCell>, args: &Vec<u8>) -> (r: Option<usize>)
    ensures
        ({
            let dv = Seq::new(deps@.len(), |i: int| deps@[i]@);
            match r {
                None => spec_locate_meta_dep(dv, args@) is None,
                Some(p) => p < deps@.len() && spec_locate_meta_dep(dv, args@) == Some(p as int),
            }
        }),
{
    let ghost dv = Seq::new(deps@.len(), |i: int| deps@[i]@);
    let n = deps.len();
    let mut i: usize = 0;
    while i < n
        invariant
            0 <= i <= n,
            n == deps@.len(),
            dv == Seq::new(deps@.len(), |k: int| deps@[k]@),
            spec_first_matching_dep(dv, args@, 0) == spec_first_matching_dep(dv, args@, i as int),
        decreases n - i,
    {
        let digest = blake160(&deps[i].out_point);
        if bytes_eq(&digest, args) {
            return Some(i);
        }
        i = i + 1;
    }
    None
}

} // verus!
