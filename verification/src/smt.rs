//! The membership verifier for closed ballots.
//!
//! A closed ballot commits to its eligibility set by the root of a sparse
//! Merkle tree mapping each eligible voter's 32-byte lock-script hash to a
//! fixed membership marker. A voter supplies a compiled proof; the verifier
//! checks it against the committed root with a domain-separated hash,
//! distinct from the short identity digest's, so a proof cannot be confused
//! across contexts.

use vstd::prelude::*;

verus! {

/// What checking a compiled proof yields for one `key ↦ value` pair under
/// `root`: `Some(true)` when the proof reproduces the root, `Some(false)`
/// when it reproduces a different root, `None` when the proof bytes are not
/// a well-formed proof for the pair.
pub uninterp spec fn smt_result(
    root: Seq<u8>,
    key: Seq<u8>,
    value: Seq<u8>,
    proof: Seq<u8>,
) -> Option<bool>;

/// The fixed 32-byte membership marker: the integer 1, little-endian.
pub open spec fn spec_smt_value() -> Seq<u8> {
    Seq::new(32, |i: int| if i == 0 { 1u8 } else { 0u8 })
}

/// The proof shows that `key` maps to the membership marker under `root`.
pub open spec fn spec_smt_membership(root: Seq<u8>, key: Seq<u8>, proof: Seq<u8>) -> bool {
    smt_result(root, key, spec_smt_value(), proof) == Some(true)
}

/// The membership marker as bytes.
pub(crate) fn smt_value() -> (v: Vec<u8>)
    ensures
        v@ == spec_smt_value(),
{
    let mut v: Vec<u8> = Vec::new();
    v.push(1u8);
    let mut i: usize = 1;
    while i < 32
        invariant
            1 <= i <= 32,
            v@.len() == i,
            v@[0] == 1u8,
            forall|j: int| 1 <= j < i ==> v@[j] == 0u8,
        decreases 32 - i,
    {
        v.push(0u8);
        i = i + 1;
    }
    assert(v@ =~= spec_smt_value());
    v
}

/// Relies on `sparse_merkle_tree::CompiledMerkleProof::verify` with the
/// crate's blake2b hasher: the verdict is a function of the root, the
/// single key/value pair and the proof bytes alone; a structurally bad
/// proof yields an error, mapped here to `None`.
#[verifier::external_body]
pub(crate) fn smt_verify(root: &Vec<u8>, key: &Vec<u8>, value: &Vec<u8>, proof: &Vec<u8>) -> (r:
    Option<bool>)
    requires
        root@.len() == 32,
        key@.len() == 32,
        value@.len() == 32,
    ensures
        r == smt_result(root@, key@, value@, proof@),
{
    let root_h: [u8; 32] = root.as_slice().try_into().unwrap();
    let key_h: [u8; 32] = key.as_slice().try_into().unwrap();
    let value_h: [u8; 32] = value.as_slice().try_into().unwrap();
    let compiled = sparse_merkle_tree::CompiledMerkleProof(proof.clone());
    let leaves = vec![(sparse_merkle_tree::H256::from(key_h), sparse_merkle_tree::H256::from(value_h))];
    let root256 = sparse_merkle_tree::H256::from(root_h);
    match compiled.verify::<sparse_merkle_tree::blake2b::Blake2bHasher>(&root256, leaves) {
        Ok(b) => Some(b),
        Err(_) => None,
    }
}

/// Check a voter's membership proof against a committed root: the claimed
/// identity must map to the membership marker.
pub fn check_membership(root: &Vec<u8>, key: &Vec<u8>, proof: &Vec<u8>) -> (r: bool)
    requires
        root@.len() == 32,
        key@.len() == 32,
    ensures
        r == spec_smt_membership(root@, key@, proof@),
{
    let value = smt_value();
    match smt_verify(root, key, &value, proof) {
        Some(true) => true,
        _ => false,
    }
}

} // verus!
