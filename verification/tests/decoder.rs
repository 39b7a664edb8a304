//! The decode engine and the typed readers on concrete buffers, including
//! the lazy verify-on-access behaviour: a malformed field that is never
//! read causes no error.

use ckb_dao_vote::cursor::{Cursor, DecodeError};
use ckb_dao_vote::entry::entry;
use ckb_dao_vote::error::Error;
use ckb_dao_vote::ledger::{DepCell, InputCell, OutputCell, Script, Transition};
use ckb_dao_vote::molecules::vote::{ByteString, Bytes, StringVec, Uint64, WitnessArgs};
use ckb_dao_vote::molecules::{load_vote_meta, load_vote_proof};

fn molecule_fixvec(bytes: &[u8]) -> Vec<u8> {
    let mut v = (bytes.len() as u32).to_le_bytes().to_vec();
    v.extend_from_slice(bytes);
    v
}

fn molecule_table(fields: &[Vec<u8>]) -> Vec<u8> {
    let header = 4 + 4 * fields.len();
    let mut offsets: Vec<u32> = Vec::new();
    let mut off = header;
    for f in fields {
        offsets.push(off as u32);
        off += f.len();
    }
    let mut v = (off as u32).to_le_bytes().to_vec();
    for o in offsets {
        v.extend_from_slice(&o.to_le_bytes());
    }
    for f in fields {
        v.extend_from_slice(f);
    }
    v
}

fn meta_fields(
    root: Option<[u8; 32]>,
    candidates: &[Vec<u8>],
    start_time: u64,
    end_time: u64,
    extra: Option<Vec<u8>>,
) -> Vec<Vec<u8>> {
    let items: Vec<Vec<u8>> = candidates.iter().map(|c| molecule_fixvec(c)).collect();
    vec![
        root.map(|r| r.to_vec()).unwrap_or_default(),
        molecule_table(&items),
        start_time.to_le_bytes().to_vec(),
        end_time.to_le_bytes().to_vec(),
        extra.map(|e| molecule_fixvec(&e)).unwrap_or_default(),
    ]
}

#[test]
fn test_unpack_number_reads_little_endian() {
    let data = vec![0x78, 0x56, 0x34, 0x12, 0xFF];
    let cur = Cursor::new(&data);
    assert_eq!(cur.unpack_number(), Ok(0x12345678));
}

#[test]
fn test_unpack_number_short_view() {
    let data = vec![1, 2, 3];
    let cur = Cursor::new(&data);
    assert_eq!(cur.unpack_number(), Err(DecodeError::FieldCount(3)));
    let empty: Vec<u8> = Vec::new();
    let cur = Cursor::new(&empty);
    assert_eq!(cur.unpack_number(), Err(DecodeError::FieldCount(0)));
}

#[test]
fn test_bytes_reader() {
    let data = molecule_fixvec(&[10, 20, 30]);
    let cur = Cursor::new(&data);
    let bytes = Bytes::new(cur);
    assert_eq!(bytes.verify(false), Ok(()));
    assert_eq!(bytes.len(), Ok(3));
    assert_eq!(bytes.get(0), Ok(10));
    assert_eq!(bytes.get(2), Ok(30));
    assert_eq!(bytes.get(3), Err(DecodeError::OutOfBound(3, 3)));
}

#[test]
fn test_bytes_reader_bad_envelope() {
    // declared count 3, but only 2 bytes of payload
    let mut data = 3u32.to_le_bytes().to_vec();
    data.extend_from_slice(&[10, 20]);
    let cur = Cursor::new(&data);
    let bytes = Bytes::new(cur);
    assert_eq!(bytes.verify(false), Err(DecodeError::Verify));
}

#[test]
fn test_string_vec_reader() {
    let items = vec![molecule_fixvec(b"alpha"), molecule_fixvec(b"beta")];
    let data = molecule_table(&items);
    let cur = Cursor::new(&data);
    let sv = StringVec::new(cur);
    assert_eq!(sv.verify(false), Ok(()));
    assert_eq!(sv.len(), Ok(2));
    let first = sv.get(0).unwrap();
    assert_eq!(first.read_all(), Ok(b"alpha".to_vec()));
    let second = sv.get(1).unwrap();
    assert_eq!(second.read_all(), Ok(b"beta".to_vec()));
    assert!(matches!(sv.get(2), Err(DecodeError::OutOfBound(2, 2))));
}

#[test]
fn test_empty_string_vec() {
    let data = molecule_table(&[]);
    let cur = Cursor::new(&data);
    let sv = StringVec::new(cur);
    assert_eq!(sv.verify(false), Ok(()));
    assert_eq!(sv.len(), Ok(0));
}

#[test]
fn test_uint64_and_byte_string() {
    let data = 0xDEAD_BEEF_0123_4567u64.to_le_bytes().to_vec();
    let cur = Cursor::new(&data);
    let n = Uint64::new(cur);
    assert_eq!(n.verify(false), Ok(()));
    assert_eq!(n.len(), 8);
    assert_eq!(n.get(0), Ok(0x67));
    assert_eq!(n.get(7), Ok(0xDE));
    assert_eq!(cur.read_u64(), Ok(0xDEAD_BEEF_0123_4567));

    let sdata = molecule_fixvec(b"ok");
    let scur = Cursor::new(&sdata);
    let s = ByteString::new(scur);
    assert_eq!(s.verify(false), Ok(()));
    assert_eq!(s.len(), Ok(2));
    assert_eq!(s.get(1), Ok(b'k'));
}

#[test]
fn test_vote_meta_accessors() {
    let root = [9u8; 32];
    let data = molecule_table(&meta_fields(
        Some(root),
        &[b"yes".to_vec(), b"no".to_vec()],
        17,
        99,
        Some(vec![5, 6]),
    ));
    let meta = load_vote_meta(&data).unwrap();
    assert_eq!(meta.smt_root_hash(), Ok(Some(root.to_vec())));
    let cand = meta.candidates().unwrap();
    assert_eq!(cand.len(), Ok(2));
    assert_eq!(cand.get(0).unwrap().read_all(), Ok(b"yes".to_vec()));
    assert_eq!(meta.start_time(), Ok(17));
    assert_eq!(meta.end_time(), Ok(99));
    let extra = meta.extra().unwrap().unwrap();
    assert_eq!(extra.read_all(), Ok(vec![5, 6]));
}

#[test]
fn test_vote_meta_open_ballot_and_no_extra() {
    let data = molecule_table(&meta_fields(None, &[b"a".to_vec()], 0, 0, None));
    let meta = load_vote_meta(&data).unwrap();
    assert_eq!(meta.smt_root_hash(), Ok(None));
    assert!(meta.extra().unwrap().is_none());
}

#[test]
fn test_vote_meta_wrong_field_count() {
    // a 4-field table is not a metadata record
    let data = molecule_table(&[Vec::new(), molecule_table(&[]), Vec::new(), Vec::new()]);
    assert_eq!(load_vote_meta(&data).unwrap_err(), Error::Molecule);
}

#[test]
fn test_vote_meta_bad_root_size() {
    // a declared root of 31 bytes is rejected at load time
    let mut fields = meta_fields(None, &[b"a".to_vec()], 0, 0, None);
    fields[0] = vec![7u8; 31];
    let data = molecule_table(&fields);
    assert_eq!(load_vote_meta(&data).unwrap_err(), Error::Molecule);
}

#[test]
fn test_zeroed_buffer_is_rejected() {
    let good = molecule_table(&meta_fields(None, &[b"a".to_vec()], 0, 0, None));
    let zeroed: Vec<u8> = good.iter().map(|_| 0).collect();
    assert_eq!(load_vote_meta(&zeroed).unwrap_err(), Error::Molecule);
}

#[test]
fn test_witness_args_slots() {
    let payload = b"record".to_vec();
    let data = molecule_table(&[Vec::new(), Vec::new(), molecule_fixvec(&payload)]);
    let cur = Cursor::new(&data);
    let wa = WitnessArgs::new(cur);
    assert_eq!(wa.verify(false), Ok(()));
    assert!(wa.lock().unwrap().is_none());
    assert!(wa.input_type().unwrap().is_none());
    let out = wa.output_type().unwrap().unwrap();
    assert_eq!(out.read_all(), Ok(payload));
}

#[test]
fn test_load_vote_proof_roundtrip() {
    let hash = [3u8; 32];
    let record = molecule_table(&[hash.to_vec(), molecule_fixvec(&[1, 2, 3])]);
    let witness = molecule_table(&[Vec::new(), Vec::new(), molecule_fixvec(&record)]);
    let proof = load_vote_proof(&witness).unwrap();
    assert_eq!(proof.lock_script_hash(), Ok(hash.to_vec()));
    assert_eq!(proof.smt_proof().unwrap().read_all(), Ok(vec![1, 2, 3]));
}

#[test]
fn test_load_vote_proof_wrong_hash_size() {
    let record = molecule_table(&[vec![3u8; 16], molecule_fixvec(&[])]);
    let witness = molecule_table(&[Vec::new(), Vec::new(), molecule_fixvec(&record)]);
    assert_eq!(load_vote_proof(&witness).unwrap_err(), Error::Molecule);
}

#[test]
fn test_lazy_unread_field_tolerated() {
    // the start_time field holds 3 garbage bytes: the envelope still
    // verifies, reading that field fails, and a whole validation pass that
    // never consults it succeeds
    let mut fields = meta_fields(None, &[b"a".to_vec(), b"b".to_vec()], 0, 0, None);
    fields[2] = vec![1, 2, 3];
    let data = molecule_table(&fields);

    let meta = load_vote_meta(&data).unwrap();
    assert!(meta.start_time().is_err());
    assert_eq!(meta.end_time(), Ok(0));

    let out_point = vec![0x55u8; 36];
    let args = ckb_hash::blake2b_256(&out_point)[0..20].to_vec();
    let type_script = Script { code_hash: vec![0xCC; 32], hash_type: 1, args };
    let voter = ckb_hash::blake2b_256(b"lazy-voter");
    let record = molecule_table(&[voter.to_vec(), molecule_fixvec(&[])]);
    let witness = molecule_table(&[Vec::new(), Vec::new(), molecule_fixvec(&record)]);
    let tx = Transition {
        script: type_script.clone(),
        inputs: vec![InputCell { type_script: None, lock_hash: voter.to_vec() }],
        outputs: vec![OutputCell {
            type_script: Some(type_script),
            data: vec![1, 0, 0, 0],
            witness,
        }],
        deps: vec![DepCell { out_point, data }],
    };
    assert!(entry(&tx).is_ok());
}

#[test]
fn test_cursor_table_slicing() {
    let fields = vec![vec![0xAA], vec![0xBB, 0xCC], Vec::new()];
    let data = molecule_table(&fields);
    let cur = Cursor::new(&data);
    assert_eq!(cur.verify_table(3, false), Ok(()));
    assert_eq!(cur.verify_table(2, false), Err(DecodeError::Verify));
    assert_eq!(cur.verify_table(2, true), Ok(()));
    assert_eq!(cur.dynvec_length(), Ok(3));
    let f0 = cur.table_slice_by_index(0).unwrap();
    assert_eq!(f0.read_all(), Ok(vec![0xAA]));
    let f1 = cur.table_slice_by_index(1).unwrap();
    assert_eq!(f1.read_all(), Ok(vec![0xBB, 0xCC]));
    let f2 = cur.table_slice_by_index(2).unwrap();
    assert!(f2.option_is_none());
}

#[test]
fn test_dynvec_crossed_offsets_item() {
    // an item whose end offset lies before its start cannot be sliced
    let mut data = Vec::new();
    data.extend_from_slice(&18u32.to_le_bytes());
    data.extend_from_slice(&16u32.to_le_bytes());
    data.extend_from_slice(&12u32.to_le_bytes());
    data.extend_from_slice(&[0u8; 6]);
    let cur = Cursor::new(&data);
    assert!(matches!(cur.dynvec_slice_by_index(0), Err(DecodeError::Overflow)));
}

#[test]
fn test_dynvec_decreasing_offsets_rejected() {
    // two offsets out of order fail the envelope check
    let mut data = Vec::new();
    let total: u32 = 4 + 8 + 2;
    data.extend_from_slice(&total.to_le_bytes());
    data.extend_from_slice(&12u32.to_le_bytes());
    data.extend_from_slice(&8u32.to_le_bytes());
    data.extend_from_slice(&[0, 0]);
    let cur = Cursor::new(&data);
    assert_eq!(cur.verify_dynvec(), Err(DecodeError::Verify));
}
