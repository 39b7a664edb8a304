//! End-to-end scenarios over whole transitions: classification, metadata
//! binding, closed- and open-ballot voting, anti-spoofing, candidate
//! bounds, and fail-fast ordering.

use ckb_dao_vote::entry::entry;
use ckb_dao_vote::error::Error;
use ckb_dao_vote::ledger::{DepCell, InputCell, OutputCell, Script, Transition};
use sparse_merkle_tree::blake2b::Blake2bHasher;
use sparse_merkle_tree::default_store::DefaultStore;
use sparse_merkle_tree::{H256, SparseMerkleTree};

type Smt = SparseMerkleTree<Blake2bHasher, H256, DefaultStore<H256>>;

const SMT_VALUE: [u8; 32] = [
    1, 0, 0, 0, 0, 0, 0, 0, 0, 0, 0, 0, 0, 0, 0, 0, 0, 0, 0, 0, 0, 0, 0, 0, 0, 0, 0, 0, 0, 0, 0, 0,
];

fn blake160(bytes: &[u8]) -> [u8; 20] {
    ckb_hash::blake2b_256(bytes)[0..20].try_into().unwrap()
}

fn voter_lock_hash(i: u8) -> [u8; 32] {
    ckb_hash::blake2b_256([i])
}

fn molecule_fixvec(bytes: &[u8]) -> Vec<u8> {
    let mut v = (bytes.len() as u32).to_le_bytes().to_vec();
    v.extend_from_slice(bytes);
    v
}

fn molecule_table(fields: &[Vec<u8>]) -> Vec<u8> {
    let header = 4 + 4 * fields.len();
    let mut offsets: Vec<u32> = Vec::new();
    let mut off = header;
    for f in fields {
        offsets.push(off as u32);
        off += f.len();
    }
    let mut v = (off as u32).to_le_bytes().to_vec();
    for o in offsets {
        v.extend_from_slice(&o.to_le_bytes());
    }
    for f in fields {
        v.extend_from_slice(f);
    }
    v
}

fn encode_vote_meta(
    root: Option<[u8; 32]>,
    candidates: &[Vec<u8>],
    start_time: u64,
    end_time: u64,
    extra: Option<Vec<u8>>,
) -> Vec<u8> {
    let f0 = root.map(|r| r.to_vec()).unwrap_or_default();
    let items: Vec<Vec<u8>> = candidates.iter().map(|c| molecule_fixvec(c)).collect();
    let f1 = molecule_table(&items);
    let f2 = start_time.to_le_bytes().to_vec();
    let f3 = end_time.to_le_bytes().to_vec();
    let f4 = extra.map(|e| molecule_fixvec(&e)).unwrap_or_default();
    molecule_table(&[f0, f1, f2, f3, f4])
}

fn encode_vote_proof(lock_script_hash: [u8; 32], smt_proof: &[u8]) -> Vec<u8> {
    molecule_table(&[lock_script_hash.to_vec(), molecule_fixvec(smt_proof)])
}

fn encode_witness_args(output_type: Option<&[u8]>) -> Vec<u8> {
    let f2 = output_type.map(molecule_fixvec).unwrap_or_default();
    molecule_table(&[Vec::new(), Vec::new(), f2])
}

fn vote_script(args: Vec<u8>) -> Script {
    Script { code_hash: vec![0xCC; 32], hash_type: 1, args }
}

#[derive(Clone, Copy, PartialEq)]
enum TestScheme {
    Normal,
    Molecule,
    WrongTxType,
    WrongArgs,
    NoMetaCell,
    VerifySmtFail,
    VerifySmtNotOn,
    NoLockFound,
    WrongVoteCandidate,
    WrongVoteCandidateExceedLimit,
    MultipleCandidates,
}

struct Config {
    voter_count: usize,
    candidate_count: usize,
    test_scheme: TestScheme,
}

fn run_scheme(config: &Config) {
    // collect all voters' lock script hashes into the eligibility tree
    let mut smt_tree = Smt::default();
    for i in 0..config.voter_count {
        let key: [u8; 32] = voter_lock_hash(i as u8);
        smt_tree.update(key.into(), SMT_VALUE.into()).unwrap();
    }
    let smt_root_hash: [u8; 32] = match config.test_scheme {
        TestScheme::VerifySmtNotOn => [0u8; 32],
        _ => (*smt_tree.root()).into(),
    };
    let candidates: Vec<Vec<u8>> = (0..config.candidate_count).map(|i| vec![i as u8]).collect();
    let vote_meta_bin = encode_vote_meta(Some(smt_root_hash), &candidates, 0, 0, None);
    let vote_meta_bin: Vec<u8> = match config.test_scheme {
        TestScheme::Molecule => vote_meta_bin.iter().map(|_| 0).collect(),
        _ => vote_meta_bin,
    };
    let out_point = vec![0xDDu8; 36];

    let args: Vec<u8> = match config.test_scheme {
        TestScheme::NoMetaCell => vec![0u8; 20],
        TestScheme::WrongArgs => vec![0u8; 10],
        _ => blake160(&out_point).to_vec(),
    };
    let type_script = vote_script(args);

    let mut inputs = Vec::new();
    let mut outputs = Vec::new();
    for i in 0..config.voter_count {
        let voter_hash = voter_lock_hash(i as u8);

        let input_type_script = match config.test_scheme {
            TestScheme::WrongTxType => Some(type_script.clone()),
            _ => None,
        };
        inputs.push(InputCell { type_script: input_type_script, lock_hash: voter_hash.to_vec() });

        let data: Vec<u8> = match config.test_scheme {
            TestScheme::WrongVoteCandidate => vec![0, 0, 0, 1],
            TestScheme::WrongVoteCandidateExceedLimit => {
                let data: u32 = 1 << config.candidate_count;
                data.to_le_bytes().to_vec()
            }
            TestScheme::MultipleCandidates => {
                // select all choices
                let data: u32 = (1 << config.candidate_count) - 1;
                data.to_le_bytes().to_vec()
            }
            _ => vec![1, 0, 0, 0],
        };

        let proof = smt_tree.merkle_proof(vec![voter_hash.into()]).unwrap();
        let compiled_proof = proof.compile(vec![(voter_hash.into(), SMT_VALUE.into())]).unwrap();

        let key: [u8; 32] = match config.test_scheme {
            TestScheme::NoLockFound => [0u8; 32],
            _ => voter_hash,
        };
        let smt_proof: Vec<u8> = match config.test_scheme {
            TestScheme::VerifySmtFail => vec![0u8; 1],
            _ => compiled_proof.0,
        };
        let vote_proof = encode_vote_proof(key, &smt_proof);
        let witness = encode_witness_args(Some(&vote_proof));

        outputs.push(OutputCell { type_script: Some(type_script.clone()), data, witness });
    }

    let tx = Transition {
        script: type_script,
        inputs,
        outputs,
        deps: vec![DepCell { out_point, data: vote_meta_bin }],
    };

    let result = entry(&tx);
    match config.test_scheme {
        TestScheme::Normal | TestScheme::MultipleCandidates => {
            assert!(result.is_ok());
        }
        _ => {
            assert!(result.is_err());
        }
    }
}

#[test]
fn test_open_vote() {
    // open vote doesn't require smt root hash
    let vote_meta_bin = encode_vote_meta(None, &[vec![0], vec![1]], 0, 0, None);
    let out_point = vec![0xEEu8; 36];
    let args = blake160(&out_point).to_vec();
    let type_script = vote_script(args);
    let voter_hash = voter_lock_hash(7);

    let vote_proof = encode_vote_proof(voter_hash, &[]);
    let witness = encode_witness_args(Some(&vote_proof));

    let tx = Transition {
        script: type_script.clone(),
        inputs: vec![InputCell { type_script: None, lock_hash: voter_hash.to_vec() }],
        outputs: vec![OutputCell {
            type_script: Some(type_script),
            // this is the voter choice
            data: vec![1, 0, 0, 0],
            witness,
        }],
        deps: vec![DepCell { out_point, data: vote_meta_bin }],
    };
    assert!(entry(&tx).is_ok());
}

#[test]
fn test_consume_vote() {
    // no need to attach vote meta cell
    let type_script = vote_script(Vec::new());
    let voter_hash = voter_lock_hash(3);
    let tx = Transition {
        script: type_script.clone(),
        inputs: vec![InputCell {
            type_script: Some(type_script),
            lock_hash: voter_hash.to_vec(),
        }],
        outputs: vec![OutputCell { type_script: None, data: Vec::new(), witness: Vec::new() }],
        deps: Vec::new(),
    };
    assert!(entry(&tx).is_ok());
}

#[test]
fn test_one_vote() {
    run_scheme(&Config { voter_count: 1, candidate_count: 1, test_scheme: TestScheme::Normal });
}

#[test]
fn test_multiple_vote() {
    run_scheme(&Config { voter_count: 3, candidate_count: 5, test_scheme: TestScheme::Normal });
}

#[test]
fn test_wrong_choice() {
    run_scheme(&Config {
        voter_count: 1,
        candidate_count: 5,
        test_scheme: TestScheme::WrongVoteCandidate,
    });
}

#[test]
fn test_wrong_tx_type() {
    run_scheme(&Config { voter_count: 1, candidate_count: 5, test_scheme: TestScheme::WrongTxType });
}

#[test]
fn test_no_meta_cell() {
    run_scheme(&Config { voter_count: 1, candidate_count: 5, test_scheme: TestScheme::NoMetaCell });
}

#[test]
fn test_wrong_args() {
    run_scheme(&Config { voter_count: 1, candidate_count: 5, test_scheme: TestScheme::WrongArgs });
}

#[test]
fn test_no_lock_found() {
    run_scheme(&Config { voter_count: 1, candidate_count: 5, test_scheme: TestScheme::NoLockFound });
}

#[test]
fn test_verify_smt_fail() {
    run_scheme(&Config {
        voter_count: 1,
        candidate_count: 5,
        test_scheme: TestScheme::VerifySmtFail,
    });
}

#[test]
fn test_verify_smt_fail_not_on() {
    run_scheme(&Config {
        voter_count: 1,
        candidate_count: 5,
        test_scheme: TestScheme::VerifySmtNotOn,
    });
}

#[test]
fn test_molecule_failed() {
    run_scheme(&Config { voter_count: 1, candidate_count: 5, test_scheme: TestScheme::Molecule });
}

#[test]
fn test_multiple_candidates() {
    run_scheme(&Config {
        voter_count: 1,
        candidate_count: 5,
        test_scheme: TestScheme::MultipleCandidates,
    });
}

#[test]
fn test_wrong_vote_candidate_exceed_limit() {
    run_scheme(&Config {
        voter_count: 1,
        candidate_count: 5,
        test_scheme: TestScheme::WrongVoteCandidateExceedLimit,
    });
}

// -- exact outcomes beyond the generic schemes --

fn open_ballot_tx(
    voter_in_inputs: [u8; 32],
    claimed: [u8; 32],
    data: Vec<u8>,
    candidate_count: usize,
) -> Transition {
    let candidates: Vec<Vec<u8>> = (0..candidate_count).map(|i| vec![i as u8]).collect();
    let vote_meta_bin = encode_vote_meta(None, &candidates, 0, 0, None);
    let out_point = vec![0xAAu8; 36];
    let type_script = vote_script(blake160(&out_point).to_vec());
    let vote_proof = encode_vote_proof(claimed, &[]);
    let witness = encode_witness_args(Some(&vote_proof));
    Transition {
        script: type_script.clone(),
        inputs: vec![InputCell { type_script: None, lock_hash: voter_in_inputs.to_vec() }],
        outputs: vec![OutputCell { type_script: Some(type_script), data, witness }],
        deps: vec![DepCell { out_point, data: vote_meta_bin }],
    }
}

#[test]
fn test_wrong_tx_type_code() {
    let type_script = vote_script(vec![0u8; 20]);
    let voter_hash = voter_lock_hash(1);
    let tx = Transition {
        script: type_script.clone(),
        inputs: vec![InputCell {
            type_script: Some(type_script.clone()),
            lock_hash: voter_hash.to_vec(),
        }],
        outputs: vec![OutputCell {
            type_script: Some(type_script),
            data: Vec::new(),
            witness: Vec::new(),
        }],
        deps: Vec::new(),
    };
    assert_eq!(entry(&tx), Err(Error::WrongTxType));
}

#[test]
fn test_wrong_args_code() {
    let type_script = vote_script(vec![0u8; 10]);
    let tx = Transition {
        script: type_script.clone(),
        inputs: vec![InputCell { type_script: None, lock_hash: voter_lock_hash(0).to_vec() }],
        outputs: vec![OutputCell {
            type_script: Some(type_script),
            data: Vec::new(),
            witness: Vec::new(),
        }],
        deps: Vec::new(),
    };
    assert_eq!(entry(&tx), Err(Error::WrongArgs));
}

#[test]
fn test_args_digest_mismatch_code() {
    // a metadata dependency is present, but args names a different digest
    let vote_meta_bin = encode_vote_meta(None, &[vec![0]], 0, 0, None);
    let out_point = vec![0xBBu8; 36];
    let type_script = vote_script(vec![0u8; 20]);
    let tx = Transition {
        script: type_script.clone(),
        inputs: vec![InputCell { type_script: None, lock_hash: voter_lock_hash(0).to_vec() }],
        outputs: vec![OutputCell {
            type_script: Some(type_script),
            data: vec![1, 0, 0, 0],
            witness: Vec::new(),
        }],
        deps: vec![DepCell { out_point, data: vote_meta_bin }],
    };
    assert_eq!(entry(&tx), Err(Error::NoMetaCell));
}

#[test]
fn test_anti_spoofing_open_ballot() {
    // the claimed identity is not backed by any input
    let tx = open_ballot_tx(voter_lock_hash(1), voter_lock_hash(2), vec![1, 0, 0, 0], 2);
    assert_eq!(entry(&tx), Err(Error::NoLockFound));
}

#[test]
fn test_candidate_bounds_exact() {
    // 5 candidates: each single choice 0..=4 is accepted, choice 5 is not
    let voter = voter_lock_hash(9);
    for c in 0..5u32 {
        let mask: u32 = 1 << c;
        let tx = open_ballot_tx(voter, voter, mask.to_le_bytes().to_vec(), 5);
        assert!(entry(&tx).is_ok());
    }
    let mask: u32 = 1 << 5;
    let tx = open_ballot_tx(voter, voter, mask.to_le_bytes().to_vec(), 5);
    assert_eq!(entry(&tx), Err(Error::WrongVoteCandidate));
}

#[test]
fn test_candidate_payload_length() {
    // a payload of unexpected length is a candidate error
    let voter = voter_lock_hash(4);
    let tx = open_ballot_tx(voter, voter, vec![0], 5);
    assert_eq!(entry(&tx), Err(Error::WrongVoteCandidate));
    let tx = open_ballot_tx(voter, voter, Vec::new(), 5);
    assert_eq!(entry(&tx), Err(Error::WrongVoteCandidate));
}

#[test]
fn test_closed_ballot_non_member() {
    // a proof compiled from a tree without the claimed key fails membership
    let mut smt_tree = Smt::default();
    for i in 0..4u8 {
        let key: [u8; 32] = voter_lock_hash(i);
        smt_tree.update(key.into(), SMT_VALUE.into()).unwrap();
    }
    let root: [u8; 32] = (*smt_tree.root()).into();
    let outsider = voter_lock_hash(200);
    let proof = smt_tree.merkle_proof(vec![outsider.into()]).unwrap();
    // the tree proves the outsider absent; membership demands the marker
    let compiled = proof.compile(vec![(outsider.into(), SMT_VALUE.into())]).unwrap();

    let vote_meta_bin = encode_vote_meta(Some(root), &[vec![0], vec![1]], 0, 0, None);
    let out_point = vec![0x99u8; 36];
    let type_script = vote_script(blake160(&out_point).to_vec());
    let vote_proof = encode_vote_proof(outsider, &compiled.0);
    let witness = encode_witness_args(Some(&vote_proof));
    let tx = Transition {
        script: type_script.clone(),
        inputs: vec![InputCell { type_script: None, lock_hash: outsider.to_vec() }],
        outputs: vec![OutputCell {
            type_script: Some(type_script),
            data: vec![1, 0, 0, 0],
            witness,
        }],
        deps: vec![DepCell { out_point, data: vote_meta_bin }],
    };
    assert_eq!(entry(&tx), Err(Error::VerifySmtFail));
}

#[test]
fn test_closed_ballot_members_round_trip() {
    // every member's compiled proof verifies against the tree's root
    let n = 5u8;
    let mut smt_tree = Smt::default();
    for i in 0..n {
        let key: [u8; 32] = voter_lock_hash(i);
        smt_tree.update(key.into(), SMT_VALUE.into()).unwrap();
    }
    let root: [u8; 32] = (*smt_tree.root()).into();
    let vote_meta_bin = encode_vote_meta(Some(root), &[vec![0], vec![1]], 0, 0, None);
    let out_point = vec![0x88u8; 36];
    let type_script = vote_script(blake160(&out_point).to_vec());

    for i in 0..n {
        let member = voter_lock_hash(i);
        let proof = smt_tree.merkle_proof(vec![member.into()]).unwrap();
        let compiled = proof.compile(vec![(member.into(), SMT_VALUE.into())]).unwrap();
        let vote_proof = encode_vote_proof(member, &compiled.0);
        let witness = encode_witness_args(Some(&vote_proof));
        let tx = Transition {
            script: type_script.clone(),
            inputs: vec![InputCell { type_script: None, lock_hash: member.to_vec() }],
            outputs: vec![OutputCell {
                type_script: Some(type_script.clone()),
                data: vec![1, 0, 0, 0],
                witness,
            }],
            deps: vec![DepCell { out_point: out_point.clone(), data: vote_meta_bin.clone() }],
        };
        assert!(entry(&tx).is_ok());
    }
}

#[test]
fn test_fail_fast_reports_first_failure() {
    // three votes: the first is fine, the second fails presence, the third
    // fails candidate bounds; the pass reports the second cell's error
    let vote_meta_bin = encode_vote_meta(None, &[vec![0], vec![1]], 0, 0, None);
    let out_point = vec![0x77u8; 36];
    let type_script = vote_script(blake160(&out_point).to_vec());
    let backed = voter_lock_hash(1);
    let unbacked = voter_lock_hash(2);

    let make_output = |claimed: [u8; 32], data: Vec<u8>| {
        let vote_proof = encode_vote_proof(claimed, &[]);
        OutputCell {
            type_script: Some(type_script.clone()),
            data,
            witness: encode_witness_args(Some(&vote_proof)),
        }
    };
    let tx = Transition {
        script: type_script.clone(),
        inputs: vec![InputCell { type_script: None, lock_hash: backed.to_vec() }],
        outputs: vec![
            make_output(backed, vec![1, 0, 0, 0]),
            make_output(unbacked, vec![1, 0, 0, 0]),
            make_output(backed, vec![0, 0, 0, 1]),
        ],
        deps: vec![DepCell { out_point, data: vote_meta_bin }],
    };
    assert_eq!(entry(&tx), Err(Error::NoLockFound));
}

#[test]
fn test_consume_ignores_malformed_meta() {
    // pure consumption succeeds even beside a garbage dependency
    let type_script = vote_script(vec![0u8; 20]);
    let tx = Transition {
        script: type_script.clone(),
        inputs: vec![InputCell {
            type_script: Some(type_script),
            lock_hash: voter_lock_hash(0).to_vec(),
        }],
        outputs: vec![OutputCell { type_script: None, data: Vec::new(), witness: Vec::new() }],
        deps: vec![DepCell { out_point: vec![1, 2, 3], data: vec![0xFF; 7] }],
    };
    assert!(entry(&tx).is_ok());
}

#[test]
fn test_missing_output_type_slot() {
    // a witness without an output_type slot cannot carry a proof record
    let vote_meta_bin = encode_vote_meta(None, &[vec![0]], 0, 0, None);
    let out_point = vec![0x66u8; 36];
    let type_script = vote_script(blake160(&out_point).to_vec());
    let voter = voter_lock_hash(5);
    let witness = encode_witness_args(None);
    let tx = Transition {
        script: type_script.clone(),
        inputs: vec![InputCell { type_script: None, lock_hash: voter.to_vec() }],
        outputs: vec![OutputCell {
            type_script: Some(type_script),
            data: vec![1, 0, 0, 0],
            witness,
        }],
        deps: vec![DepCell { out_point, data: vote_meta_bin }],
    };
    assert_eq!(entry(&tx), Err(Error::Molecule));
}

#[test]
fn test_error_codes() {
    assert_eq!(Error::Syscall(ckb_dao_vote::SysError::IndexOutOfBound).error_code(), 21);
    assert_eq!(Error::Syscall(ckb_dao_vote::SysError::ItemMissing).error_code(), 22);
    assert_eq!(Error::Syscall(ckb_dao_vote::SysError::LengthNotEnough(5)).error_code(), 23);
    assert_eq!(Error::Syscall(ckb_dao_vote::SysError::Encoding).error_code(), 24);
    assert_eq!(Error::Syscall(ckb_dao_vote::SysError::WaitFailure).error_code(), 25);
    assert_eq!(Error::Syscall(ckb_dao_vote::SysError::Other).error_code(), 27);
    assert_eq!(Error::Molecule.error_code(), 51);
    assert_eq!(Error::WrongTxType.error_code(), 52);
    assert_eq!(Error::WrongArgs.error_code(), 53);
    assert_eq!(Error::NoMetaCell.error_code(), 54);
    assert_eq!(Error::WrongHashSize.error_code(), 55);
    assert_eq!(Error::VerifySmtFail.error_code(), 56);
    assert_eq!(Error::NoLockFound.error_code(), 57);
    assert_eq!(Error::WrongVoteCandidate.error_code(), 58);
}
