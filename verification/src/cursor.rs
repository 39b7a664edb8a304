//! The zero-copy decode engine.
//!
//! A [`Cursor`] is a view `[offset, offset + size)` over a caller-owned byte
//! buffer; nothing is copied until a leaf value is read out. The engine
//! understands the four encodings the record formats use: fixed-size runs of
//! raw bytes, fixed vectors (a 4-byte little-endian count followed by
//! `count * item_size` bytes), dynamic vectors (a 4-byte total size, a table
//! of 4-byte offsets, then the item payloads back to back) and tables (a
//! dynamic vector with a fixed field count, an absent optional field being a
//! zero-length slice).
//!
//! Decoding is lazy: the `verify_*` methods only check the envelope they are
//! given, and each field is checked when it is read. A malformed field that
//! is never read causes no error, which keeps the cost of parsing untrusted
//! buffers proportional to the fields actually consulted.
//!
//! Each executable method returns exactly what its `spec_*` counterpart
//! describes, including which [`DecodeError`] is reported for which input.
//! The specification functions work over the buffer's byte sequence and
//! ghost [`SpecSlice`] views, so that higher layers can state what decoding
//! a whole record yields from the bytes alone.

use vstd::prelude::*;

verus! {

/// Size in bytes of the little-endian numbers that prefix vectors and
/// offset tables.
pub const NUMBER_SIZE: usize = 4;

/// Why a decode step failed.
///
/// The pass treats every decode failure as one opaque outcome; the variants
/// exist so that each engine operation can say precisely when it fails.
#[derive(Clone, Copy, Debug, PartialEq, Eq, Structural)]
pub enum DecodeError {
    /// A requested slice `(offset, size)` does not fit in its parent view.
    TotalSize(usize, usize),
    /// A fixed-size view has the wrong size `(actual, expected)`.
    Header(usize, usize),
    /// An offset-table header is not a plausible item count.
    UnknownItem,
    /// A read `(position, buffer_size)` starts past the end of the buffer.
    OutOfBound(usize, usize),
    /// A numeric field could not be read in full; the payload is the number
    /// of bytes that were available.
    FieldCount(usize),
    /// Offset arithmetic left the address space.
    Overflow,
    /// A read `(available, wanted)` ran off the end of the buffer.
    Read(usize, usize),
    /// An envelope failed its structural check.
    Verify,
}

/// A lazily-checked view over a slice of `buf`.
///
/// The view may legally extend past the end of the buffer — a child view is
/// built from offsets found in attacker-supplied bytes — and every read
/// through it is bounds-checked against the buffer itself.
#[derive(Clone, Copy, Debug)]
pub struct Cursor<'a> {
    pub buf: &'a Vec<u8>,
    pub offset: usize,
    pub size: usize,
}

/// The ghost image of a view: where in the buffer it starts and how far it
/// claims to reach.
pub struct SpecSlice {
    pub offset: int,
    pub size: int,
}

/// What a slicing operation's outcome must look like: on success the
/// returned view sits over the same buffer at the position the
/// specification names, on failure it reports the same error.
pub open spec fn slice_result_matches<'a>(
    r: Result<Cursor<'a>, DecodeError>,
    b: Seq<u8>,
    s: Result<SpecSlice, DecodeError>,
) -> bool {
    match r {
        Ok(c) => c.buf@ == b && s == Ok::<SpecSlice, DecodeError>(
            SpecSlice { offset: c.offset as int, size: c.size as int },
        ),
        Err(e) => s == Err::<SpecSlice, DecodeError>(e),
    }
}

/// The little-endian 32-bit value of `b[pos .. pos + 4]`.
pub open spec fn spec_le_u32(b: Seq<u8>, pos: int) -> u32
    recommends
        0 <= pos,
        pos + 4 <= b.len(),
{
    (b[pos] + b[pos + 1] * 0x100 + b[pos + 2] * 0x10000 + b[pos + 3] * 0x1000000) as u32
}

/// The little-endian 64-bit value of `b[pos .. pos + 8]`.
pub open spec fn spec_le_u64(b: Seq<u8>, pos: int) -> u64
    recommends
        0 <= pos,
        pos + 8 <= b.len(),
{
    (b[pos] + b[pos + 1] * 0x100 + b[pos + 2] * 0x10000 + b[pos + 3] * 0x1000000
        + b[pos + 4] * 0x100000000 + b[pos + 5] * 0x10000000000
        + b[pos + 6] * 0x1000000000000 + b[pos + 7] * 0x100000000000000) as u64
}

/// Reading the number prefix of a view of size `csize` at absolute position
/// `pos`: at most 4 bytes are pulled, a short view yields however many bytes
/// it has, and the prefix only parses when all 4 arrive.
pub open spec fn spec_unpack_number(b: Seq<u8>, pos: int, csize: int) -> Result<usize, DecodeError> {
    let read_len = if csize < 4 { csize } else { 4 };
    if read_len <= 0 {
        Err(DecodeError::FieldCount(0))
    } else if pos >= b.len() {
        Err(DecodeError::OutOfBound(pos as usize, b.len() as usize))
    } else if b.len() - pos < read_len {
        Err(DecodeError::Read((b.len() - pos) as usize, read_len as usize))
    } else if read_len < 4 {
        Err(DecodeError::FieldCount(csize as usize))
    } else {
        Ok(spec_le_u32(b, pos) as usize)
    }
}

/// A view is a valid fixed-size run exactly when its size is `n`.
pub open spec fn spec_verify_fixed_size(csize: int, n: int) -> Result<(), DecodeError> {
    if csize != n {
        Err(DecodeError::Header(csize as usize, n as usize))
    } else {
        Ok(())
    }
}

/// `item_size * item_count + offset`, failing when it leaves the address
/// space.
pub open spec fn spec_calculate_offset(item_size: int, item_count: int, offset: int) -> Result<
    usize,
    DecodeError,
> {
    if item_size * item_count > usize::MAX {
        Err(DecodeError::Overflow)
    } else if item_size * item_count + offset > usize::MAX {
        Err(DecodeError::Overflow)
    } else {
        Ok((item_size * item_count + offset) as usize)
    }
}

/// A child view `[offset, offset + size)` of a parent view at
/// `(coff, csize)`, checked against the parent's size only; reads through
/// the child check the buffer.
pub open spec fn spec_slice_by_offset(coff: int, csize: int, offset: int, size: int) -> Result<
    SpecSlice,
    DecodeError,
> {
    if offset + size > csize {
        Err(DecodeError::TotalSize(offset as usize, size as usize))
    } else if coff + offset > usize::MAX {
        Err(DecodeError::Overflow)
    } else {
        Ok(SpecSlice { offset: coff + offset, size: size })
    }
}

/// A view with its first `delta` bytes dropped.
pub open spec fn spec_slice_by_start(coff: int, csize: int, delta: int) -> Result<
    SpecSlice,
    DecodeError,
> {
    if coff + delta > usize::MAX {
        Err(DecodeError::Overflow)
    } else if csize < delta {
        Err(DecodeError::Overflow)
    } else {
        Ok(SpecSlice { offset: coff + delta, size: csize - delta })
    }
}

/// The item count an offset table's header declares: the number prefix must
/// be a positive multiple of 4, and counts the offsets plus the header
/// itself.
pub open spec fn spec_get_item_count(b: Seq<u8>, pos: int, csize: int) -> Result<
    usize,
    DecodeError,
> {
    match spec_unpack_number(b, pos, csize) {
        Err(e) => Err(e),
        Ok(len) => if len % 4 != 0 {
            Err(DecodeError::UnknownItem)
        } else if len / 4 == 0 {
            Err(DecodeError::UnknownItem)
        } else {
            Ok((len / 4 - 1) as usize)
        },
    }
}

/// Walking the offset table: each of `remaining` further offsets must be
/// readable and not decrease. `last` is the offset read just before, if any.
pub open spec fn spec_check_offsets(
    b: Seq<u8>,
    pos: int,
    csize: int,
    remaining: int,
    last: Option<usize>,
) -> Result<(), DecodeError>
    decreases remaining,
{
    if remaining <= 0 {
        Ok(())
    } else {
        match spec_unpack_number(b, pos, csize) {
            Err(e) => Err(e),
            Ok(o) => if last matches Some(l) && l > o {
                Err(DecodeError::Verify)
            } else {
                spec_check_offsets(b, pos + 4, csize, remaining - 1, Some(o))
            },
        }
    }
}

/// A valid dynamic vector: the number prefix equals the view's size; an
/// empty vector is the bare prefix; otherwise the first offset determines
/// the item count and all offsets are non-decreasing.
pub open spec fn spec_verify_dynvec(b: Seq<u8>, pos: int, csize: int) -> Result<(), DecodeError> {
    match spec_unpack_number(b, pos, csize) {
        Err(e) => Err(e),
        Ok(total) => if csize != total {
            Err(DecodeError::Verify)
        } else if total == 4 {
            Ok(())
        } else if total < 8 {
            Err(DecodeError::Verify)
        } else {
            match spec_unpack_number(b, pos + 4, csize) {
                Err(e) => Err(e),
                Ok(first) => if first % 4 != 0 || first < 8 {
                    Err(DecodeError::Verify)
                } else if total < first {
                    Err(DecodeError::Verify)
                } else {
                    spec_check_offsets(b, pos + 4, csize, first / 4 - 1, None)
                },
            }
        },
    }
}

/// A valid table: a valid dynamic vector whose field count is
/// `expected` — or at least `expected` when `compatible` admits newer,
/// wider records.
pub open spec fn spec_verify_table(
    b: Seq<u8>,
    pos: int,
    csize: int,
    expected: int,
    compatible: bool,
) -> Result<(), DecodeError> {
    match spec_verify_dynvec(b, pos, csize) {
        Err(e) => Err(e),
        Ok(()) => {
            let total = spec_unpack_number(b, pos, csize)->Ok_0 as int;
            if total == 4 {
                if expected == 0 {
                    Ok(())
                } else {
                    Err(DecodeError::Verify)
                }
            } else {
                let first = spec_unpack_number(b, pos + 4, csize)->Ok_0 as int;
                let field_count = first / 4 - 1;
                if field_count < expected || (!compatible && field_count > expected) {
                    Err(DecodeError::Verify)
                } else {
                    Ok(())
                }
            }
        },
    }
}

/// A valid fixed vector: `count * item_size` bytes after the number prefix,
/// an empty vector being the bare prefix.
pub open spec fn spec_verify_fixvec(b: Seq<u8>, pos: int, csize: int, item_size: int) -> Result<
    (),
    DecodeError,
> {
    if csize < 4 {
        Err(DecodeError::Verify)
    } else {
        match spec_unpack_number(b, pos, csize) {
            Err(e) => Err(e),
            Ok(item_count) => if item_count == 0 {
                if csize == 4 {
                    Ok(())
                } else {
                    Err(DecodeError::Verify)
                }
            } else {
                match spec_calculate_offset(item_size, item_count as int, 4) {
                    Err(e) => Err(e),
                    Ok(total) => if csize == total {
                        Ok(())
                    } else {
                        Err(DecodeError::Verify)
                    },
                }
            },
        }
    }
}

/// The number of items a fixed vector holds.
pub open spec fn spec_fixvec_length(b: Seq<u8>, pos: int, csize: int) -> Result<
    usize,
    DecodeError,
> {
    spec_unpack_number(b, pos, csize)
}

/// The number of items a dynamic vector holds.
pub open spec fn spec_dynvec_length(b: Seq<u8>, pos: int, csize: int) -> Result<
    usize,
    DecodeError,
> {
    if csize == 4 {
        Ok(0)
    } else {
        match spec_slice_by_start(pos, csize, 4) {
            Err(e) => Err(e),
            Ok(s) => spec_get_item_count(b, s.offset, s.size),
        }
    }
}

/// The item of a fixed vector at `item_index`.
pub open spec fn spec_fixvec_slice_by_index(
    b: Seq<u8>,
    pos: int,
    csize: int,
    item_size: int,
    item_index: int,
) -> Result<SpecSlice, DecodeError> {
    match spec_unpack_number(b, pos, csize) {
        Err(e) => Err(e),
        Ok(item_count) => if item_index >= item_count {
            Err(DecodeError::OutOfBound(item_index as usize, item_count))
        } else {
            match spec_calculate_offset(item_size, item_index, 4) {
                Err(e) => Err(e),
                Ok(offset) => spec_slice_by_offset(pos, csize, offset as int, item_size),
            }
        },
    }
}

/// The item of a dynamic vector at `item_index`: the slice between two
/// consecutive table offsets, the last item ending at the declared total
/// size.
pub open spec fn spec_dynvec_slice_by_index(
    b: Seq<u8>,
    pos: int,
    csize: int,
    item_index: int,
) -> Result<SpecSlice, DecodeError> {
    match spec_unpack_number(b, pos, csize) {
        Err(e) => Err(e),
        Ok(total) => match spec_get_item_count(b, pos + 4, csize) {
            Err(e) => Err(e),
            Ok(item_count) => if item_index >= item_count {
                Err(DecodeError::OutOfBound(item_index as usize, item_count))
            } else {
                match spec_calculate_offset(4, item_index + 1, 0) {
                    Err(e) => Err(e),
                    Ok(t) => if pos + t > usize::MAX {
                        Err(DecodeError::Overflow)
                    } else {
                        match spec_unpack_number(b, pos + t, csize) {
                            Err(e) => Err(e),
                            Ok(item_start) => if item_index + 1 == item_count {
                                if pos + item_start > usize::MAX {
                                    Err(DecodeError::Overflow)
                                } else if total < item_start {
                                    Err(DecodeError::Overflow)
                                } else {
                                    Ok(
                                        SpecSlice {
                                            offset: pos + item_start,
                                            size: total - item_start,
                                        },
                                    )
                                }
                            } else {
                                match spec_calculate_offset(4, item_index + 2, 0) {
                                    Err(e) => Err(e),
                                    Ok(t2) => if pos + t2 > usize::MAX {
                                        Err(DecodeError::Overflow)
                                    } else {
                                        match spec_unpack_number(b, pos + t2, csize) {
                                            Err(e) => Err(e),
                                            Ok(item_end) => if pos + item_start > usize::MAX {
                                                Err(DecodeError::Overflow)
                                            } else if item_end < item_start {
                                                Err(DecodeError::Overflow)
                                            } else {
                                                Ok(
                                                    SpecSlice {
                                                        offset: pos + item_start,
                                                        size: item_end - item_start,
                                                    },
                                                )
                                            },
                                        }
                                    },
                                }
                            },
                        }
                    },
                }
            },
        },
    }
}

/// A fixed vector of bytes, stripped of its number prefix: the raw content.
pub open spec fn spec_convert_to_rawbytes(b: Seq<u8>, pos: int, csize: int) -> Result<
    SpecSlice,
    DecodeError,
> {
    match spec_unpack_number(b, pos, csize) {
        Err(e) => Err(e),
        Ok(n) => spec_slice_by_offset(pos, csize, 4, n as int),
    }
}

/// Reading a whole view out as bytes: only legal when the view lies inside
/// the buffer.
pub open spec fn spec_read_all(b: Seq<u8>, pos: int, csize: int) -> Result<Seq<u8>, DecodeError> {
    if csize == 0 {
        Ok(Seq::empty())
    } else if pos >= b.len() {
        Err(DecodeError::OutOfBound(pos as usize, b.len() as usize))
    } else if b.len() - pos < csize {
        Err(DecodeError::Read((b.len() - pos) as usize, csize as usize))
    } else {
        Ok(b.subrange(pos, pos + csize))
    }
}

/// Reading a view as exactly 32 raw bytes: the view must have size 32 and
/// lie inside the buffer.
pub open spec fn spec_read_hash32(b: Seq<u8>, pos: int, csize: int) -> Result<Seq<u8>, DecodeError> {
    let read_len = if csize < 32 { csize } else { 32 };
    if read_len > 0 && pos >= b.len() {
        Err(DecodeError::OutOfBound(pos as usize, b.len() as usize))
    } else if read_len > 0 && b.len() - pos < read_len {
        Err(DecodeError::Read((b.len() - pos) as usize, read_len as usize))
    } else if read_len != 32 || csize != 32 {
        Err(DecodeError::Read(read_len as usize, 32))
    } else {
        Ok(b.subrange(pos, pos + 32))
    }
}

/// Reading a view as a little-endian 64-bit integer: the view must offer
/// all 8 bytes.
pub open spec fn spec_read_u64(b: Seq<u8>, pos: int, csize: int) -> Result<u64, DecodeError> {
    let read_len = if csize < 8 { csize } else { 8 };
    if read_len <= 0 {
        Err(DecodeError::FieldCount(8))
    } else if pos >= b.len() {
        Err(DecodeError::OutOfBound(pos as usize, b.len() as usize))
    } else if b.len() - pos < read_len {
        Err(DecodeError::Read((b.len() - pos) as usize, read_len as usize))
    } else if read_len < 8 {
        Err(DecodeError::FieldCount(8))
    } else {
        Ok(spec_le_u64(b, pos))
    }
}

/// Reading a view as one byte.
pub open spec fn spec_read_u8(b: Seq<u8>, pos: int, csize: int) -> Result<u8, DecodeError> {
    if csize <= 0 {
        Err(DecodeError::FieldCount(1))
    } else if pos >= b.len() {
        Err(DecodeError::OutOfBound(pos as usize, b.len() as usize))
    } else {
        Ok(b[pos])
    }
}

impl<'a> Cursor<'a> {
    /// The ghost image of this view.
    pub open spec fn slice(self) -> SpecSlice {
        SpecSlice { offset: self.offset as int, size: self.size as int }
    }

    /// A view over a whole buffer.
    pub fn new(buf: &'a Vec<u8>) -> (c: Cursor<'a>)
        ensures
            c.buf@ == buf@,
            c.offset == 0,
            c.size == buf@.len(),
    {
        Cursor { buf, offset: 0, size: buf.len() }
    }

    /// Read the 4-byte little-endian number the view starts with.
    pub fn unpack_number(&self) -> (r: Result<usize, DecodeError>)
        ensures
            r == spec_unpack_number(self.buf@, self.offset as int, self.size as int),
    {
        let read_len: usize = if self.size < 4 {
            self.size
        } else {
            4
        };
        if read_len == 0 {
            Err(DecodeError::FieldCount(0))
        } else if self.offset >= self.buf.len() {
            Err(DecodeError::OutOfBound(self.offset, self.buf.len()))
        } else if self.buf.len() - self.offset < read_len {
            Err(DecodeError::Read(self.buf.len() - self.offset, read_len))
        } else if read_len < 4 {
            Err(DecodeError::FieldCount(self.size))
        } else {
            let b0 = self.buf[self.offset] as u32;
            let b1 = self.buf[self.offset + 1] as u32;
            let b2 = self.buf[self.offset + 2] as u32;
            let b3 = self.buf[self.offset + 3] as u32;
            Ok((b0 + b1 * 0x100 + b2 * 0x10000 + b3 * 0x1000000) as usize)
        }
    }

    /// Check that the view is a fixed-size run of exactly `n` bytes.
    pub fn verify_fixed_size(&self, n: usize) -> (r: Result<(), DecodeError>)
        ensures
            r == spec_verify_fixed_size(self.size as int, n as int),
    {
        if self.size != n {
            Err(DecodeError::Header(self.size, n))
        } else {
            Ok(())
        }
    }

    /// The child view `[offset, offset + size)` of this view.
    pub fn slice_by_offset(&self, offset: usize, size: usize) -> (r: Result<Cursor<'a>, DecodeError>)
        ensures
            slice_result_matches(
                r,
                self.buf@,
                spec_slice_by_offset(self.offset as int, self.size as int, offset as int, size as int),
            ),
    {
        if offset > self.size || size > self.size - offset {
            Err(DecodeError::TotalSize(offset, size))
        } else {
            match self.offset.checked_add(offset) {
                Some(o) => Ok(Cursor { buf: self.buf, offset: o, size }),
                None => Err(DecodeError::Overflow),
            }
        }
    }

    /// This view with its first `delta` bytes dropped.
    pub fn slice_by_start(&self, delta: usize) -> (r: Result<Cursor<'a>, DecodeError>)
        ensures
            slice_result_matches(
                r,
                self.buf@,
                spec_slice_by_start(self.offset as int, self.size as int, delta as int),
            ),
    {
        match self.offset.checked_add(delta) {
            Some(o) => {
                if self.size < delta {
                    Err(DecodeError::Overflow)
                } else {
                    Ok(Cursor { buf: self.buf, offset: o, size: self.size - delta })
                }
            },
            None => Err(DecodeError::Overflow),
        }
    }

    /// Whether an optional field is absent (a zero-length view).
    pub fn option_is_none(&self) -> (r: bool)
        ensures
            r == (self.size == 0),
    {
        self.size == 0
    }

    /// The item count declared by an offset table's header.
    pub fn get_item_count(&self) -> (r: Result<usize, DecodeError>)
        ensures
            r == spec_get_item_count(self.buf@, self.offset as int, self.size as int),
    {
        match self.unpack_number() {
            Err(e) => Err(e),
            Ok(len) => {
                if len % 4 != 0 {
                    Err(DecodeError::UnknownItem)
                } else if len / 4 == 0 {
                    Err(DecodeError::UnknownItem)
                } else {
                    Ok(len / 4 - 1)
                }
            },
        }
    }

    /// The number of items of a fixed vector.
    pub fn fixvec_length(&self) -> (r: Result<usize, DecodeError>)
        ensures
            r == spec_fixvec_length(self.buf@, self.offset as int, self.size as int),
    {
        self.unpack_number()
    }

    /// The number of items of a dynamic vector.
    pub fn dynvec_length(&self) -> (r: Result<usize, DecodeError>)
        ensures
            r == spec_dynvec_length(self.buf@, self.offset as int, self.size as int),
    {
        if self.size == 4 {
            Ok(0)
        } else {
            match self.slice_by_start(4) {
                Err(e) => Err(e),
                Ok(c2) => c2.get_item_count(),
            }
        }
    }

    /// Check that the view is a valid fixed vector of `item_size`-byte items.
    pub fn verify_fixvec(&self, item_size: usize) -> (r: Result<(), DecodeError>)
        ensures
            r == spec_verify_fixvec(self.buf@, self.offset as int, self.size as int, item_size as int),
    {
        if self.size < 4 {
            return Err(DecodeError::Verify);
        }
        let item_count = match self.unpack_number() {
            Ok(n) => n,
            Err(e) => return Err(e),
        };
        if item_count == 0 {
            if self.size == 4 {
                return Ok(());
            } else {
                return Err(DecodeError::Verify);
            }
        }
        let total = match calculate_offset(item_size, item_count, NUMBER_SIZE) {
            Ok(t) => t,
            Err(e) => return Err(e),
        };
        if self.size == total {
            Ok(())
        } else {
            Err(DecodeError::Verify)
        }
    }

    /// Check that the view is a valid dynamic vector.
    pub fn verify_dynvec(&self) -> (r: Result<(), DecodeError>)
        ensures
            r == spec_verify_dynvec(self.buf@, self.offset as int, self.size as int),
    {
        let total = match self.unpack_number() {
            Ok(t) => t,
            Err(e) => return Err(e),
        };
        if self.size != total {
            return Err(DecodeError::Verify);
        }
        if total == 4 {
            return Ok(());
        }
        if total < 8 {
            return Err(DecodeError::Verify);
        }
        let blen = self.buf.len();
        assert(self.offset + 4 <= blen);
        let first_pos = self.offset + 4;
        let first = match (Cursor { buf: self.buf, offset: first_pos, size: self.size }).unpack_number() {
            Ok(f) => f,
            Err(e) => return Err(e),
        };
        if first % 4 != 0 || first < 8 {
            return Err(DecodeError::Verify);
        }
        if total < first {
            return Err(DecodeError::Verify);
        }
        let count = first / 4 - 1;
        let ghost b = self.buf@;
        let ghost csize = self.size as int;
        assert(spec_verify_dynvec(b, self.offset as int, csize) == spec_check_offsets(
            b,
            first_pos as int,
            csize,
            count as int,
            None,
        ));
        let mut pos = first_pos;
        let mut last: Option<usize> = None;
        let mut i: usize = 0;
        while i < count
            invariant
                0 <= i <= count,
                csize == self.size as int,
                b == self.buf@,
                b.len() <= usize::MAX,
                spec_verify_dynvec(b, self.offset as int, csize) == spec_check_offsets(
                    b,
                    first_pos as int,
                    csize,
                    count as int,
                    None,
                ),
                spec_check_offsets(b, first_pos as int, csize, count as int, None)
                    == spec_check_offsets(b, pos as int, csize, count - i, last),
            decreases count - i,
        {
            let here = Cursor { buf: self.buf, offset: pos, size: self.size };
            match here.unpack_number() {
                Err(e) => {
                    return Err(e);
                },
                Ok(o) => {
                    if let Some(l) = last {
                        if l > o {
                            return Err(DecodeError::Verify);
                        }
                    }
                    assert(pos + 4 <= b.len());
                    pos = pos + 4;
                    last = Some(o);
                    i = i + 1;
                },
            }
        }
        Ok(())
    }

    /// Check that the view is a valid table of `expected` fields; with
    /// `compatible`, newer records with more fields are also accepted.
    pub fn verify_table(&self, expected: usize, compatible: bool) -> (r: Result<(), DecodeError>)
        ensures
            r == spec_verify_table(
                self.buf@,
                self.offset as int,
                self.size as int,
                expected as int,
                compatible,
            ),
    {
        match self.verify_dynvec() {
            Err(e) => return Err(e),
            Ok(()) => {},
        }
        let total = match self.unpack_number() {
            Ok(t) => t,
            Err(e) => return Err(e),
        };
        if total == 4 {
            if expected == 0 {
                return Ok(());
            } else {
                return Err(DecodeError::Verify);
            }
        }
        let blen = self.buf.len();
        assert(self.offset + 4 <= blen);
        let first = match (Cursor { buf: self.buf, offset: self.offset + 4, size: self.size })
            .unpack_number() {
            Ok(f) => f,
            Err(e) => return Err(e),
        };
        let field_count = first / 4 - 1;
        if field_count < expected || (!compatible && field_count > expected) {
            Err(DecodeError::Verify)
        } else {
            Ok(())
        }
    }

    /// The item of a fixed vector at `item_index`.
    pub fn fixvec_slice_by_index(&self, item_size: usize, item_index: usize) -> (r: Result<
        Cursor<'a>,
        DecodeError,
    >)
        ensures
            slice_result_matches(
                r,
                self.buf@,
                spec_fixvec_slice_by_index(
                    self.buf@,
                    self.offset as int,
                    self.size as int,
                    item_size as int,
                    item_index as int,
                ),
            ),
    {
        let item_count = match self.unpack_number() {
            Ok(n) => n,
            Err(e) => return Err(e),
        };
        if item_index >= item_count {
            return Err(DecodeError::OutOfBound(item_index, item_count));
        }
        let offset = match calculate_offset(item_size, item_index, NUMBER_SIZE) {
            Ok(o) => o,
            Err(e) => return Err(e),
        };
        self.slice_by_offset(offset, item_size)
    }

    /// The item of a dynamic vector at `item_index`.
    pub fn dynvec_slice_by_index(&self, item_index: usize) -> (r: Result<Cursor<'a>, DecodeError>)
        ensures
            slice_result_matches(
                r,
                self.buf@,
                spec_dynvec_slice_by_index(
                    self.buf@,
                    self.offset as int,
                    self.size as int,
                    item_index as int,
                ),
            ),
    {
        let total = match self.unpack_number() {
            Ok(t) => t,
            Err(e) => return Err(e),
        };
        let blen = self.buf.len();
        assert(self.offset + 4 <= blen);
        let item_count = match (Cursor { buf: self.buf, offset: self.offset + 4, size: self.size })
            .get_item_count() {
            Ok(n) => n,
            Err(e) => return Err(e),
        };
        if item_index >= item_count {
            return Err(DecodeError::OutOfBound(item_index, item_count));
        }
        let t = match calculate_offset(NUMBER_SIZE, item_index + 1, 0) {
            Ok(t) => t,
            Err(e) => return Err(e),
        };
        let start_pos = match self.offset.checked_add(t) {
            Some(p) => p,
            None => return Err(DecodeError::Overflow),
        };
        let item_start = match (Cursor { buf: self.buf, offset: start_pos, size: self.size })
            .unpack_number() {
            Ok(s) => s,
            Err(e) => return Err(e),
        };
        if item_index + 1 == item_count {
            let res_offset = match self.offset.checked_add(item_start) {
                Some(o) => o,
                None => return Err(DecodeError::Overflow),
            };
            if total < item_start {
                return Err(DecodeError::Overflow);
            }
            Ok(Cursor { buf: self.buf, offset: res_offset, size: total - item_start })
        } else {
            let t2 = match calculate_offset(NUMBER_SIZE, item_index + 2, 0) {
                Ok(t2) => t2,
                Err(e) => return Err(e),
            };
            let end_pos = match self.offset.checked_add(t2) {
                Some(p) => p,
                None => return Err(DecodeError::Overflow),
            };
            let item_end = match (Cursor { buf: self.buf, offset: end_pos, size: self.size })
                .unpack_number() {
                Ok(s) => s,
                Err(e) => return Err(e),
            };
            let res_offset = match self.offset.checked_add(item_start) {
                Some(o) => o,
                None => return Err(DecodeError::Overflow),
            };
            if item_end < item_start {
                return Err(DecodeError::Overflow);
            }
            Ok(Cursor { buf: self.buf, offset: res_offset, size: item_end - item_start })
        }
    }

    /// The field of a table at `field_index`.
    pub fn table_slice_by_index(&self, field_index: usize) -> (r: Result<Cursor<'a>, DecodeError>)
        ensures
            slice_result_matches(
                r,
                self.buf@,
                spec_dynvec_slice_by_index(
                    self.buf@,
                    self.offset as int,
                    self.size as int,
                    field_index as int,
                ),
            ),
    {
        self.dynvec_slice_by_index(field_index)
    }

    /// The raw content of a fixed vector of bytes, without its prefix.
    pub fn convert_to_rawbytes(&self) -> (r: Result<Cursor<'a>, DecodeError>)
        ensures
            slice_result_matches(
                r,
                self.buf@,
                spec_convert_to_rawbytes(self.buf@, self.offset as int, self.size as int),
            ),
    {
        let n = match self.unpack_number() {
            Ok(n) => n,
            Err(e) => return Err(e),
        };
        self.slice_by_offset(NUMBER_SIZE, n)
    }

    /// Copy the whole view out as bytes.
    pub fn read_all(&self) -> (r: Result<Vec<u8>, DecodeError>)
        ensures
            r matches Ok(v) ==> Ok::<Seq<u8>, DecodeError>(v@) == spec_read_all(
                self.buf@,
                self.offset as int,
                self.size as int,
            ),
            r matches Err(e) ==> Err::<Seq<u8>, DecodeError>(e) == spec_read_all(
                self.buf@,
                self.offset as int,
                self.size as int,
            ),
    {
        if self.size == 0 {
            let v: Vec<u8> = Vec::new();
            assert(v@ =~= spec_read_all(self.buf@, self.offset as int, self.size as int)->Ok_0);
            return Ok(v);
        }
        if self.offset >= self.buf.len() {
            return Err(DecodeError::OutOfBound(self.offset, self.buf.len()));
        }
        if self.buf.len() - self.offset < self.size {
            return Err(DecodeError::Read(self.buf.len() - self.offset, self.size));
        }
        let mut v: Vec<u8> = Vec::new();
        let mut i: usize = 0;
        while i < self.size
            invariant
                0 <= i <= self.size,
                self.offset + self.size <= self.buf@.len(),
                self.buf@.len() <= usize::MAX,
                v@ == self.buf@.subrange(self.offset as int, self.offset + i),
            decreases self.size - i,
        {
            v.push(self.buf[self.offset + i]);
            assert(v@ =~= self.buf@.subrange(self.offset as int, self.offset + i + 1));
            i = i + 1;
        }
        assert(v@ =~= spec_read_all(self.buf@, self.offset as int, self.size as int)->Ok_0);
        Ok(v)
    }

    /// Read the view as exactly 32 raw bytes.
    pub fn read_hash32(&self) -> (r: Result<Vec<u8>, DecodeError>)
        ensures
            r matches Ok(v) ==> Ok::<Seq<u8>, DecodeError>(v@) == spec_read_hash32(
                self.buf@,
                self.offset as int,
                self.size as int,
            ),
            r matches Err(e) ==> Err::<Seq<u8>, DecodeError>(e) == spec_read_hash32(
                self.buf@,
                self.offset as int,
                self.size as int,
            ),
    {
        let read_len: usize = if self.size < 32 {
            self.size
        } else {
            32
        };
        if read_len > 0 && self.offset >= self.buf.len() {
            return Err(DecodeError::OutOfBound(self.offset, self.buf.len()));
        }
        if read_len > 0 && self.buf.len() - self.offset < read_len {
            return Err(DecodeError::Read(self.buf.len() - self.offset, read_len));
        }
        if read_len != 32 || self.size != 32 {
            return Err(DecodeError::Read(read_len, 32));
        }
        let mut v: Vec<u8> = Vec::new();
        let mut i: usize = 0;
        while i < 32
            invariant
                0 <= i <= 32,
                self.offset + 32 <= self.buf@.len(),
                self.buf@.len() <= usize::MAX,
                v@ == self.buf@.subrange(self.offset as int, self.offset + i),
            decreases 32 - i,
        {
            v.push(self.buf[self.offset + i]);
            assert(v@ =~= self.buf@.subrange(self.offset as int, self.offset + i + 1));
            i = i + 1;
        }
        assert(v@ =~= spec_read_hash32(self.buf@, self.offset as int, self.size as int)->Ok_0);
        Ok(v)
    }

    /// Read the view as a little-endian 64-bit integer.
    pub fn read_u64(&self) -> (r: Result<u64, DecodeError>)
        ensures
            r == spec_read_u64(self.buf@, self.offset as int, self.size as int),
    {
        let read_len: usize = if self.size < 8 {
            self.size
        } else {
            8
        };
        if read_len == 0 {
            return Err(DecodeError::FieldCount(8));
        }
        if self.offset >= self.buf.len() {
            return Err(DecodeError::OutOfBound(self.offset, self.buf.len()));
        }
        if self.buf.len() - self.offset < read_len {
            return Err(DecodeError::Read(self.buf.len() - self.offset, read_len));
        }
        if read_len < 8 {
            return Err(DecodeError::FieldCount(8));
        }
        let b0 = self.buf[self.offset] as u64;
        let b1 = self.buf[self.offset + 1] as u64;
        let b2 = self.buf[self.offset + 2] as u64;
        let b3 = self.buf[self.offset + 3] as u64;
        let b4 = self.buf[self.offset + 4] as u64;
        let b5 = self.buf[self.offset + 5] as u64;
        let b6 = self.buf[self.offset + 6] as u64;
        let b7 = self.buf[self.offset + 7] as u64;
        Ok(
            b0 + b1 * 0x100 + b2 * 0x10000 + b3 * 0x1000000 + b4 * 0x100000000 + b5 * 0x10000000000
                + b6 * 0x1000000000000 + b7 * 0x100000000000000,
        )
    }

    /// Read the view as one byte.
    pub fn read_u8(&self) -> (r: Result<u8, DecodeError>)
        ensures
            r == spec_read_u8(self.buf@, self.offset as int, self.size as int),
    {
        if self.size == 0 {
            Err(DecodeError::FieldCount(1))
        } else if self.offset >= self.buf.len() {
            Err(DecodeError::OutOfBound(self.offset, self.buf.len()))
        } else {
            Ok(self.buf[self.offset])
        }
    }
}

/// `item_size * item_count + offset` with explicit failure instead of
/// wrap-around.
fn calculate_offset(item_size: usize, item_count: usize, offset: usize) -> (r: Result<
    usize,
    DecodeError,
>)
    ensures
        r == spec_calculate_offset(item_size as int, item_count as int, offset as int),
{
    match item_size.checked_mul(item_count) {
        Some(p) => match p.checked_add(offset) {
            Some(q) => Ok(q),
            None => Err(DecodeError::Overflow),
        },
        None => Err(DecodeError::Overflow),
    }
}

} // verus!
