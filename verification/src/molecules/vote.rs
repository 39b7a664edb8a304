//! Typed readers over the ballot record formats.
//!
//! Each reader wraps a [`Cursor`] and exposes the fields its schema
//! declares. Readers are lazy: `verify` checks only the envelope, and each
//! field is decoded the moment it is read. The records:
//!
//! - `VoteMeta`, a 5-field table `{smt_root_hash: optional 32 bytes,
//!   candidates: vector of byte strings, start_time: u64, end_time: u64,
//!   extra: optional bytes}` — the metadata an organizer publishes once;
//! - `VoteProof`, a 2-field table `{lock_script_hash: 32 bytes,
//!   smt_proof: bytes}` — the per-vote witness a voter supplies;
//! - `WitnessArgs`, the generic 3-slot envelope (`lock`, `input_type`,
//!   `output_type`) that carries a `VoteProof` in its `output_type` slot.

use vstd::prelude::*;

use crate::cursor::{
    Cursor, DecodeError, SpecSlice, slice_result_matches, spec_dynvec_length,
    spec_dynvec_slice_by_index, spec_fixvec_length, spec_fixvec_slice_by_index, spec_read_hash32,
    spec_read_u64, spec_read_u8, spec_slice_by_offset, spec_verify_dynvec, spec_verify_fixed_size,
    spec_verify_fixvec, spec_verify_table, spec_convert_to_rawbytes,
};

verus! {

/// What an optional-field accessor's outcome must look like, mirroring
/// [`slice_result_matches`] for fields that may be absent.
pub open spec fn opt_slice_result_matches<'a>(
    r: Result<Option<Cursor<'a>>, DecodeError>,
    b: Seq<u8>,
    s: Result<Option<SpecSlice>, DecodeError>,
) -> bool {
    match r {
        Ok(None) => s == Ok::<Option<SpecSlice>, DecodeError>(None),
        Ok(Some(c)) => c.buf@ == b && s == Ok::<Option<SpecSlice>, DecodeError>(Some(c.slice())),
        Err(e) => s == Err::<Option<SpecSlice>, DecodeError>(e),
    }
}

/// An 8-byte little-endian unsigned integer field.
#[derive(Clone, Copy, Debug)]
pub struct Uint64<'a> {
    pub cursor: Cursor<'a>,
}

/// The byte of a fixed-size field at `index`.
pub open spec fn spec_fixed_get(b: Seq<u8>, pos: int, csize: int, index: int) -> Result<
    u8,
    DecodeError,
> {
    match spec_slice_by_offset(pos, csize, index, 1) {
        Err(e) => Err(e),
        Ok(s) => spec_read_u8(b, s.offset, s.size),
    }
}

impl<'a> Uint64<'a> {
    /// A reader over `cursor`.
    pub fn new(cursor: Cursor<'a>) -> (r: Uint64<'a>)
        ensures
            r.cursor == cursor,
    {
        Uint64 { cursor }
    }

    /// The field's size in bytes.
    pub fn len(&self) -> (n: usize)
        ensures
            n == 8,
    {
        8
    }

    /// The byte at `index`.
    pub fn get(&self, index: usize) -> (r: Result<u8, DecodeError>)
        ensures
            r == spec_fixed_get(
                self.cursor.buf@,
                self.cursor.offset as int,
                self.cursor.size as int,
                index as int,
            ),
    {
        let cur = match self.cursor.slice_by_offset(index, 1) {
            Ok(c) => c,
            Err(e) => return Err(e),
        };
        cur.read_u8()
    }

    /// Check that the view is exactly 8 bytes.
    pub fn verify(&self, _compatible: bool) -> (r: Result<(), DecodeError>)
        ensures
            r == spec_verify_fixed_size(self.cursor.size as int, 8),
    {
        self.cursor.verify_fixed_size(8)
    }
}

/// The byte of a fixed vector of bytes at `index`.
pub open spec fn spec_fixvec_get(b: Seq<u8>, pos: int, csize: int, index: int) -> Result<
    u8,
    DecodeError,
> {
    match spec_fixvec_slice_by_index(b, pos, csize, 1, index) {
        Err(e) => Err(e),
        Ok(s) => spec_read_u8(b, s.offset, s.size),
    }
}

/// A variable-length run of raw bytes (a fixed vector of single bytes).
#[derive(Clone, Copy, Debug)]
pub struct Bytes<'a> {
    pub cursor: Cursor<'a>,
}

impl<'a> Bytes<'a> {
    /// A reader over `cursor`.
    pub fn new(cursor: Cursor<'a>) -> (r: Bytes<'a>)
        ensures
            r.cursor == cursor,
    {
        Bytes { cursor }
    }

    /// The number of bytes the vector declares.
    pub fn len(&self) -> (r: Result<usize, DecodeError>)
        ensures
            r == spec_fixvec_length(self.cursor.buf@, self.cursor.offset as int, self.cursor.size as int),
    {
        self.cursor.fixvec_length()
    }

    /// The byte at `index`.
    pub fn get(&self, index: usize) -> (r: Result<u8, DecodeError>)
        ensures
            r == spec_fixvec_get(
                self.cursor.buf@,
                self.cursor.offset as int,
                self.cursor.size as int,
                index as int,
            ),
    {
        let cur = match self.cursor.fixvec_slice_by_index(1, index) {
            Ok(c) => c,
            Err(e) => return Err(e),
        };
        cur.read_u8()
    }

    /// Check the vector's envelope.
    pub fn verify(&self, _compatible: bool) -> (r: Result<(), DecodeError>)
        ensures
            r == spec_verify_fixvec(
                self.cursor.buf@,
                self.cursor.offset as int,
                self.cursor.size as int,
                1,
            ),
    {
        self.cursor.verify_fixvec(1)
    }
}

/// A byte string, such as a candidate's name (a fixed vector of single
/// bytes, like [`Bytes`]).
#[derive(Clone, Copy, Debug)]
pub struct ByteString<'a> {
    pub cursor: Cursor<'a>,
}

impl<'a> ByteString<'a> {
    /// A reader over `cursor`.
    pub fn new(cursor: Cursor<'a>) -> (r: ByteString<'a>)
        ensures
            r.cursor == cursor,
    {
        ByteString { cursor }
    }

    /// The number of bytes the string declares.
    pub fn len(&self) -> (r: Result<usize, DecodeError>)
        ensures
            r == spec_fixvec_length(self.cursor.buf@, self.cursor.offset as int, self.cursor.size as int),
    {
        self.cursor.fixvec_length()
    }

    /// The byte at `index`.
    pub fn get(&self, index: usize) -> (r: Result<u8, DecodeError>)
        ensures
            r == spec_fixvec_get(
                self.cursor.buf@,
                self.cursor.offset as int,
                self.cursor.size as int,
                index as int,
            ),
    {
        let cur = match self.cursor.fixvec_slice_by_index(1, index) {
            Ok(c) => c,
            Err(e) => return Err(e),
        };
        cur.read_u8()
    }

    /// Check the string's envelope.
    pub fn verify(&self, _compatible: bool) -> (r: Result<(), DecodeError>)
        ensures
            r == spec_verify_fixvec(
                self.cursor.buf@,
                self.cursor.offset as int,
                self.cursor.size as int,
                1,
            ),
    {
        self.cursor.verify_fixvec(1)
    }
}

/// The raw content of a dynamic vector's item at `index`.
pub open spec fn spec_dynvec_get_rawbytes(b: Seq<u8>, pos: int, csize: int, index: int) -> Result<
    SpecSlice,
    DecodeError,
> {
    match spec_dynvec_slice_by_index(b, pos, csize, index) {
        Err(e) => Err(e),
        Ok(s) => spec_convert_to_rawbytes(b, s.offset, s.size),
    }
}

/// A vector of byte strings — the declared candidates, in ballot order.
#[derive(Clone, Copy, Debug)]
pub struct StringVec<'a> {
    pub cursor: Cursor<'a>,
}

impl<'a> StringVec<'a> {
    /// A reader over `cursor`.
    pub fn new(cursor: Cursor<'a>) -> (r: StringVec<'a>)
        ensures
            r.cursor == cursor,
    {
        StringVec { cursor }
    }

    /// The number of strings the vector declares.
    pub fn len(&self) -> (r: Result<usize, DecodeError>)
        ensures
            r == spec_dynvec_length(self.cursor.buf@, self.cursor.offset as int, self.cursor.size as int),
    {
        self.cursor.dynvec_length()
    }

    /// The raw content of the string at `index`.
    pub fn get(&self, index: usize) -> (r: Result<Cursor<'a>, DecodeError>)
        ensures
            slice_result_matches(
                r,
                self.cursor.buf@,
                spec_dynvec_get_rawbytes(
                    self.cursor.buf@,
                    self.cursor.offset as int,
                    self.cursor.size as int,
                    index as int,
                ),
            ),
    {
        let cur = match self.cursor.dynvec_slice_by_index(index) {
            Ok(c) => c,
            Err(e) => return Err(e),
        };
        cur.convert_to_rawbytes()
    }

    /// Check the vector's envelope.
    pub fn verify(&self, _compatible: bool) -> (r: Result<(), DecodeError>)
        ensures
            r == spec_verify_dynvec(self.cursor.buf@, self.cursor.offset as int, self.cursor.size as int),
    {
        self.cursor.verify_dynvec()
    }
}

/// A 32-byte hash field.
#[derive(Clone, Copy, Debug)]
pub struct Byte32<'a> {
    pub cursor: Cursor<'a>,
}

impl<'a> Byte32<'a> {
    /// A reader over `cursor`.
    pub fn new(cursor: Cursor<'a>) -> (r: Byte32<'a>)
        ensures
            r.cursor == cursor,
    {
        Byte32 { cursor }
    }

    /// The field's size in bytes.
    pub fn len(&self) -> (n: usize)
        ensures
            n == 32,
    {
        32
    }

    /// The byte at `index`.
    pub fn get(&self, index: usize) -> (r: Result<u8, DecodeError>)
        ensures
            r == spec_fixed_get(
                self.cursor.buf@,
                self.cursor.offset as int,
                self.cursor.size as int,
                index as int,
            ),
    {
        let cur = match self.cursor.slice_by_offset(index, 1) {
            Ok(c) => c,
            Err(e) => return Err(e),
        };
        cur.read_u8()
    }

    /// Check that the view is exactly 32 bytes.
    pub fn verify(&self, _compatible: bool) -> (r: Result<(), DecodeError>)
        ensures
            r == spec_verify_fixed_size(self.cursor.size as int, 32),
    {
        self.cursor.verify_fixed_size(32)
    }
}

/// The metadata record's eligibility root, if it declares one.
pub open spec fn spec_meta_root(b: Seq<u8>, pos: int, csize: int) -> Result<
    Option<Seq<u8>>,
    DecodeError,
> {
    match spec_dynvec_slice_by_index(b, pos, csize, 0) {
        Err(e) => Err(e),
        Ok(f) => if f.size == 0 {
            Ok(None)
        } else {
            match spec_read_hash32(b, f.offset, f.size) {
                Err(e) => Err(e),
                Ok(h) => Ok(Some(h)),
            }
        },
    }
}

/// The view holding the metadata record's candidate vector.
pub open spec fn spec_meta_candidates(b: Seq<u8>, pos: int, csize: int) -> Result<
    SpecSlice,
    DecodeError,
> {
    spec_dynvec_slice_by_index(b, pos, csize, 1)
}

/// The number of candidates the metadata record declares.
pub open spec fn spec_meta_candidate_count(b: Seq<u8>, pos: int, csize: int) -> Result<
    usize,
    DecodeError,
> {
    match spec_meta_candidates(b, pos, csize) {
        Err(e) => Err(e),
        Ok(s) => spec_dynvec_length(b, s.offset, s.size),
    }
}

/// The metadata record's start time.
pub open spec fn spec_meta_start_time(b: Seq<u8>, pos: int, csize: int) -> Result<
    u64,
    DecodeError,
> {
    match spec_dynvec_slice_by_index(b, pos, csize, 2) {
        Err(e) => Err(e),
        Ok(f) => spec_read_u64(b, f.offset, f.size),
    }
}

/// The metadata record's end time.
pub open spec fn spec_meta_end_time(b: Seq<u8>, pos: int, csize: int) -> Result<u64, DecodeError> {
    match spec_dynvec_slice_by_index(b, pos, csize, 3) {
        Err(e) => Err(e),
        Ok(f) => spec_read_u64(b, f.offset, f.size),
    }
}

/// The metadata record's opaque extra blob, if present.
pub open spec fn spec_meta_extra(b: Seq<u8>, pos: int, csize: int) -> Result<
    Option<SpecSlice>,
    DecodeError,
> {
    match spec_dynvec_slice_by_index(b, pos, csize, 4) {
        Err(e) => Err(e),
        Ok(f) => if f.size == 0 {
            Ok(None)
        } else {
            match spec_convert_to_rawbytes(b, f.offset, f.size) {
                Err(e) => Err(e),
                Ok(s) => Ok(Some(s)),
            }
        },
    }
}

/// A well-formed metadata record: a 5-field table whose root, when
/// declared, is exactly 32 bytes, and whose candidate vector is a valid
/// dynamic vector. The remaining fields stay unchecked until read.
pub open spec fn spec_meta_verify(b: Seq<u8>, pos: int, csize: int, compatible: bool) -> Result<
    (),
    DecodeError,
> {
    match spec_verify_table(b, pos, csize, 5, compatible) {
        Err(e) => Err(e),
        Ok(()) => match spec_meta_root(b, pos, csize) {
            Err(e) => Err(e),
            Ok(_) => match spec_meta_candidates(b, pos, csize) {
                Err(e) => Err(e),
                Ok(s) => spec_verify_dynvec(b, s.offset, s.size),
            },
        },
    }
}

/// The published ballot metadata: eligibility root, candidates, voting
/// window and an opaque extra blob.
#[derive(Clone, Copy, Debug)]
pub struct VoteMeta<'a> {
    pub cursor: Cursor<'a>,
}

impl<'a> VoteMeta<'a> {
    /// A reader over `cursor`.
    pub fn new(cursor: Cursor<'a>) -> (r: VoteMeta<'a>)
        ensures
            r.cursor == cursor,
    {
        VoteMeta { cursor }
    }

    /// The eligibility root, or `None` for an open ballot.
    pub fn smt_root_hash(&self) -> (r: Result<Option<Vec<u8>>, DecodeError>)
        ensures
            ({
                let s = spec_meta_root(
                    self.cursor.buf@,
                    self.cursor.offset as int,
                    self.cursor.size as int,
                );
                match r {
                    Ok(None) => s == Ok::<Option<Seq<u8>>, DecodeError>(None),
                    Ok(Some(v)) => s == Ok::<Option<Seq<u8>>, DecodeError>(Some(v@)) && v@.len()
                        == 32,
                    Err(e) => s == Err::<Option<Seq<u8>>, DecodeError>(e),
                }
            }),
    {
        let cur = match self.cursor.table_slice_by_index(0) {
            Ok(c) => c,
            Err(e) => return Err(e),
        };
        if cur.option_is_none() {
            Ok(None)
        } else {
            match cur.read_hash32() {
                Ok(v) => Ok(Some(v)),
                Err(e) => Err(e),
            }
        }
    }

    /// The declared candidates.
    pub fn candidates(&self) -> (r: Result<StringVec<'a>, DecodeError>)
        ensures
            ({
                let s = spec_meta_candidates(
                    self.cursor.buf@,
                    self.cursor.offset as int,
                    self.cursor.size as int,
                );
                match r {
                    Ok(sv) => sv.cursor.buf@ == self.cursor.buf@ && s == Ok::<
                        SpecSlice,
                        DecodeError,
                    >(sv.cursor.slice()),
                    Err(e) => s == Err::<SpecSlice, DecodeError>(e),
                }
            }),
    {
        let cur = match self.cursor.table_slice_by_index(1) {
            Ok(c) => c,
            Err(e) => return Err(e),
        };
        Ok(StringVec::new(cur))
    }

    /// The ballot's start time.
    pub fn start_time(&self) -> (r: Result<u64, DecodeError>)
        ensures
            r == spec_meta_start_time(
                self.cursor.buf@,
                self.cursor.offset as int,
                self.cursor.size as int,
            ),
    {
        let cur = match self.cursor.table_slice_by_index(2) {
            Ok(c) => c,
            Err(e) => return Err(e),
        };
        cur.read_u64()
    }

    /// The ballot's end time.
    pub fn end_time(&self) -> (r: Result<u64, DecodeError>)
        ensures
            r == spec_meta_end_time(
                self.cursor.buf@,
                self.cursor.offset as int,
                self.cursor.size as int,
            ),
    {
        let cur = match self.cursor.table_slice_by_index(3) {
            Ok(c) => c,
            Err(e) => return Err(e),
        };
        cur.read_u64()
    }

    /// The opaque extra blob, if present.
    pub fn extra(&self) -> (r: Result<Option<Cursor<'a>>, DecodeError>)
        ensures
            opt_slice_result_matches(
                r,
                self.cursor.buf@,
                spec_meta_extra(self.cursor.buf@, self.cursor.offset as int, self.cursor.size as int),
            ),
    {
        let cur = match self.cursor.table_slice_by_index(4) {
            Ok(c) => c,
            Err(e) => return Err(e),
        };
        if cur.option_is_none() {
            Ok(None)
        } else {
            match cur.convert_to_rawbytes() {
                Ok(c2) => Ok(Some(c2)),
                Err(e) => Err(e),
            }
        }
    }

    /// Check the record's envelope, its root field and its candidate
    /// vector; the time fields and the extra blob stay unchecked until
    /// read.
    pub fn verify(&self, compatible: bool) -> (r: Result<(), DecodeError>)
        ensures
            r == spec_meta_verify(
                self.cursor.buf@,
                self.cursor.offset as int,
                self.cursor.size as int,
                compatible,
            ),
    {
        match self.cursor.verify_table(5, compatible) {
            Err(e) => return Err(e),
            Ok(()) => {},
        }
        match self.smt_root_hash() {
            Err(e) => return Err(e),
            Ok(_) => {},
        }
        let cand = match self.candidates() {
            Ok(c) => c,
            Err(e) => return Err(e),
        };
        cand.verify(compatible)
    }
}

/// The proof record's claimed voter identity.
pub open spec fn spec_proof_lock_hash(b: Seq<u8>, pos: int, csize: int) -> Result<
    Seq<u8>,
    DecodeError,
> {
    match spec_dynvec_slice_by_index(b, pos, csize, 0) {
        Err(e) => Err(e),
        Ok(f) => spec_read_hash32(b, f.offset, f.size),
    }
}

/// The view holding the proof record's compiled membership proof.
pub open spec fn spec_proof_smt_proof(b: Seq<u8>, pos: int, csize: int) -> Result<
    SpecSlice,
    DecodeError,
> {
    match spec_dynvec_slice_by_index(b, pos, csize, 1) {
        Err(e) => Err(e),
        Ok(f) => spec_convert_to_rawbytes(b, f.offset, f.size),
    }
}

/// A well-formed proof record: a 2-field table whose claimed identity is
/// exactly 32 bytes. The proof bytes stay unchecked until read.
pub open spec fn spec_proof_verify(b: Seq<u8>, pos: int, csize: int, compatible: bool) -> Result<
    (),
    DecodeError,
> {
    match spec_verify_table(b, pos, csize, 2, compatible) {
        Err(e) => Err(e),
        Ok(()) => match spec_proof_lock_hash(b, pos, csize) {
            Err(e) => Err(e),
            Ok(_) => Ok(()),
        },
    }
}

/// The per-vote witness: the claimed voter identity and its membership
/// proof.
#[derive(Clone, Copy, Debug)]
pub struct VoteProof<'a> {
    pub cursor: Cursor<'a>,
}

impl<'a> VoteProof<'a> {
    /// A reader over `cursor`.
    pub fn new(cursor: Cursor<'a>) -> (r: VoteProof<'a>)
        ensures
            r.cursor == cursor,
    {
        VoteProof { cursor }
    }

    /// The claimed voter identity: the hash of a lock script the voter
    /// says it controls.
    pub fn lock_script_hash(&self) -> (r: Result<Vec<u8>, DecodeError>)
        ensures
            ({
                let s = spec_proof_lock_hash(
                    self.cursor.buf@,
                    self.cursor.offset as int,
                    self.cursor.size as int,
                );
                match r {
                    Ok(v) => s == Ok::<Seq<u8>, DecodeError>(v@) && v@.len() == 32,
                    Err(e) => s == Err::<Seq<u8>, DecodeError>(e),
                }
            }),
    {
        let cur = match self.cursor.table_slice_by_index(0) {
            Ok(c) => c,
            Err(e) => return Err(e),
        };
        cur.read_hash32()
    }

    /// The compiled membership proof's bytes.
    pub fn smt_proof(&self) -> (r: Result<Cursor<'a>, DecodeError>)
        ensures
            slice_result_matches(
                r,
                self.cursor.buf@,
                spec_proof_smt_proof(
                    self.cursor.buf@,
                    self.cursor.offset as int,
                    self.cursor.size as int,
                ),
            ),
    {
        let cur = match self.cursor.table_slice_by_index(1) {
            Ok(c) => c,
            Err(e) => return Err(e),
        };
        cur.convert_to_rawbytes()
    }

    /// Check the record's envelope and its identity field; the proof bytes
    /// stay unchecked until read.
    pub fn verify(&self, compatible: bool) -> (r: Result<(), DecodeError>)
        ensures
            r == spec_proof_verify(
                self.cursor.buf@,
                self.cursor.offset as int,
                self.cursor.size as int,
                compatible,
            ),
    {
        match self.cursor.verify_table(2, compatible) {
            Err(e) => return Err(e),
            Ok(()) => {},
        }
        match self.lock_script_hash() {
            Err(e) => Err(e),
            Ok(_) => Ok(()),
        }
    }
}

/// One optional slot of the witness envelope.
pub open spec fn spec_witness_slot(b: Seq<u8>, pos: int, csize: int, index: int) -> Result<
    Option<SpecSlice>,
    DecodeError,
> {
    match spec_dynvec_slice_by_index(b, pos, csize, index) {
        Err(e) => Err(e),
        Ok(f) => if f.size == 0 {
            Ok(None)
        } else {
            match spec_convert_to_rawbytes(b, f.offset, f.size) {
                Err(e) => Err(e),
                Ok(s) => Ok(Some(s)),
            }
        },
    }
}

/// A well-formed witness envelope: a 3-field table. Its slots stay
/// unchecked until read.
pub open spec fn spec_witness_verify(b: Seq<u8>, pos: int, csize: int, compatible: bool) -> Result<
    (),
    DecodeError,
> {
    spec_verify_table(b, pos, csize, 3, compatible)
}

/// The generic per-input witness envelope with its three optional slots.
#[derive(Clone, Copy, Debug)]
pub struct WitnessArgs<'a> {
    pub cursor: Cursor<'a>,
}

impl<'a> WitnessArgs<'a> {
    /// A reader over `cursor`.
    pub fn new(cursor: Cursor<'a>) -> (r: WitnessArgs<'a>)
        ensures
            r.cursor == cursor,
    {
        WitnessArgs { cursor }
    }

    /// The `lock` slot, if present.
    pub fn lock(&self) -> (r: Result<Option<Cursor<'a>>, DecodeError>)
        ensures
            opt_slice_result_matches(
                r,
                self.cursor.buf@,
                spec_witness_slot(
                    self.cursor.buf@,
                    self.cursor.offset as int,
                    self.cursor.size as int,
                    0,
                ),
            ),
    {
        self.slot(0)
    }

    /// The `input_type` slot, if present.
    pub fn input_type(&self) -> (r: Result<Option<Cursor<'a>>, DecodeError>)
        ensures
            opt_slice_result_matches(
                r,
                self.cursor.buf@,
                spec_witness_slot(
                    self.cursor.buf@,
                    self.cursor.offset as int,
                    self.cursor.size as int,
                    1,
                ),
            ),
    {
        self.slot(1)
    }

    /// The `output_type` slot, if present; a created vote cell's proof
    /// record travels here.
    pub fn output_type(&self) -> (r: Result<Option<Cursor<'a>>, DecodeError>)
        ensures
            opt_slice_result_matches(
                r,
                self.cursor.buf@,
                spec_witness_slot(
                    self.cursor.buf@,
                    self.cursor.offset as int,
                    self.cursor.size as int,
                    2,
                ),
            ),
    {
        self.slot(2)
    }

    /// Check the envelope; the slots stay unchecked until read.
    pub fn verify(&self, compatible: bool) -> (r: Result<(), DecodeError>)
        ensures
            r == spec_witness_verify(
                self.cursor.buf@,
                self.cursor.offset as int,
                self.cursor.size as int,
                compatible,
            ),
    {
        self.cursor.verify_table(3, compatible)
    }

    /// The slot at `index`, if present.
    fn slot(&self, index: usize) -> (r: Result<Option<Cursor<'a>>, DecodeError>)
        ensures
            opt_slice_result_matches(
                r,
                self.cursor.buf@,
                spec_witness_slot(
                    self.cursor.buf@,
                    self.cursor.offset as int,
                    self.cursor.size as int,
                    index as int,
                ),
            ),
    {
        let cur = match self.cursor.table_slice_by_index(index) {
            Ok(c) => c,
            Err(e) => return Err(e),
        };
        if cur.option_is_none() {
            Ok(None)
        } else {
            match cur.convert_to_rawbytes() {
                Ok(c2) => Ok(Some(c2)),
                Err(e) => Err(e),
            }
        }
    }
}

} // verus!
