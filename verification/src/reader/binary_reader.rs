//! The reader that all others are built on: bytes, integers and names.

use crate::error::{error_at, viewed, word_error_at, BinaryReaderError, Result};
use crate::limits::MAX_WASM_STRING_SIZE;
use vstd::arithmetic::power2::pow2;
use vstd::prelude::*;
use vstd::utf8::{decode_utf8, encode_utf8, valid_utf8};

verus! {

/// A range of offsets in a binary, from `start` up to, but without, `end`.
#[derive(Debug, Copy, Clone, PartialEq, Eq, Structural)]
pub struct Range {
    /// The first offset of the range.
    pub start: usize,
    /// The offset behind the range.
    pub end: usize,
}

/// A place in a run of bytes that stands at offset `base` of a binary.
pub struct Cursor {
    /// The bytes.
    pub bytes: Seq<u8>,
    /// How many of them have been read.
    pub pos: int,
    /// The offset of the first byte in the whole binary.
    pub base: int,
}

impl Cursor {
    /// The start of `bytes`, which stand at `base`.
    pub open spec fn start(bytes: Seq<u8>, base: int) -> Cursor {
        Cursor { bytes, pos: 0, base }
    }

    /// The place lies in the bytes, and every offset fits in a machine word.
    pub open spec fn wf(self) -> bool {
        &&& 0 <= self.pos <= self.bytes.len()
        &&& 0 <= self.base
        &&& self.base + self.bytes.len() <= usize::MAX
    }

    /// The offset of the next byte in the whole binary.
    pub open spec fn offset(self) -> int {
        self.base + self.pos
    }

    /// How many bytes are left.
    pub open spec fn left(self) -> int {
        self.bytes.len() - self.pos
    }

    /// The bytes from the cursor on.
    pub open spec fn rest(self) -> Seq<u8> {
        self.bytes.subrange(self.pos, self.bytes.len() as int)
    }

    /// The place `n` bytes further on.
    pub open spec fn advance(self, n: int) -> Cursor {
        Cursor { pos: self.pos + n, ..self }
    }

    /// `self` is a place behind `earlier` in the same bytes, or the same place.
    pub open spec fn follows(self, earlier: Cursor) -> bool {
        &&& self.bytes == earlier.bytes
        &&& self.base == earlier.base
        &&& earlier.pos <= self.pos <= self.bytes.len()
    }

    /// The error for bytes that are missing here.
    pub open spec fn end_of_file(self) -> BinaryReaderError {
        error_at("Unexpected EOF", self.offset())
    }

    /// The next byte.
    pub open spec fn byte(self) -> (Cursor, Result<u8>) {
        if self.left() > 0 {
            (self.advance(1), Ok(self.bytes[self.pos]))
        } else {
            (self, Err(self.end_of_file()))
        }
    }

    /// The next `n` bytes.
    pub open spec fn take(self, n: int) -> (Cursor, Result<Seq<u8>>) {
        if self.left() >= n {
            (self.advance(n), Ok(self.bytes.subrange(self.pos, self.pos + n)))
        } else {
            (self, Err(self.end_of_file()))
        }
    }

    /// The next four bytes as a number, least significant byte first.
    pub open spec fn fixed_u32(self) -> (Cursor, Result<u32>) {
        if self.left() >= 4 {
            (
                self.advance(4),
                Ok(
                    (self.bytes[self.pos] + 0x100 * self.bytes[self.pos + 1] + 0x1_0000
                        * self.bytes[self.pos + 2] + 0x100_0000 * self.bytes[self.pos + 3]) as u32,
                ),
            )
        } else {
            (self, Err(self.end_of_file()))
        }
    }

    /// An unsigned LEB128 number of at most `bits` bits: seven bits a byte,
    /// least significant first, the top bit set in all bytes but the last.
    ///
    /// `what` names the number in errors.
    pub open spec fn unsigned(self, bits: nat, what: &'static str) -> (Cursor, Result<nat>)
        decreases bits,
    {
        match self.byte() {
            (c, Err(e)) => (c, Err(e)),
            (c, Ok(b)) => if bits <= 7 {
                if b < pow2(bits) {
                    (c, Ok(b as nat))
                } else if b >= 0x80 {
                    (c, Err(too_long(what, c)))
                } else {
                    (c, Err(too_large(what, c)))
                }
            } else if b < 0x80 {
                (c, Ok(b as nat))
            } else {
                match c.unsigned((bits - 7) as nat, what) {
                    (c, Ok(high)) => (c, Ok((b - 0x80 + 0x80 * high) as nat)),
                    (c, Err(e)) => (c, Err(e)),
                }
            },
        }
    }

    /// A signed LEB128 number of at most `bits` bits: as an unsigned one, but
    /// bit six of the last byte is the sign.
    pub open spec fn signed(self, bits: nat, what: &'static str) -> (Cursor, Result<int>)
        decreases bits,
    {
        match self.byte() {
            (c, Err(e)) => (c, Err(e)),
            (c, Ok(b)) => if bits <= 7 {
                if b >= 0x80 {
                    (c, Err(too_long(what, c)))
                } else if -half(bits) <= low_signed(b) < half(bits) {
                    (c, Ok(low_signed(b)))
                } else {
                    (c, Err(too_large(what, c)))
                }
            } else if b < 0x80 {
                (c, Ok(low_signed(b)))
            } else {
                match c.signed((bits - 7) as nat, what) {
                    (c, Ok(high)) => (c, Ok(b - 0x80 + 0x80 * high)),
                    (c, Err(e)) => (c, Err(e)),
                }
            },
        }
    }

    /// An unsigned LEB128 number of 32 bits.
    pub open spec fn var_u32(self) -> (Cursor, Result<u32>) {
        match self.unsigned(32, "var_u32") {
            (c, Ok(n)) => (c, Ok(n as u32)),
            (c, Err(e)) => (c, Err(e)),
        }
    }

    /// An unsigned LEB128 number of 64 bits.
    pub open spec fn var_u64(self) -> (Cursor, Result<u64>) {
        match self.unsigned(64, "var_u64") {
            (c, Ok(n)) => (c, Ok(n as u64)),
            (c, Err(e)) => (c, Err(e)),
        }
    }

    /// A signed LEB128 number of 32 bits.
    pub open spec fn var_i32(self) -> (Cursor, Result<i32>) {
        match self.signed(32, "var_i32") {
            (c, Ok(n)) => (c, Ok(n as i32)),
            (c, Err(e)) => (c, Err(e)),
        }
    }

    /// A signed LEB128 number of 33 bits.
    pub open spec fn var_s33(self) -> (Cursor, Result<i64>) {
        match self.signed(33, "var_s33") {
            (c, Ok(n)) => (c, Ok(n as i64)),
            (c, Err(e)) => (c, Err(e)),
        }
    }

    /// A signed LEB128 number of 64 bits.
    pub open spec fn var_i64(self) -> (Cursor, Result<i64>) {
        match self.signed(64, "var_i64") {
            (c, Ok(n)) => (c, Ok(n as i64)),
            (c, Err(e)) => (c, Err(e)),
        }
    }

    /// A number of at most `limit`; `what` names what it counts.
    pub open spec fn size(self, limit: int, what: &'static str) -> (Cursor, Result<u32>) {
        match self.var_u32() {
            (c, Err(e)) => (c, Err(e)),
            (c, Ok(n)) => if n > limit {
                (c, Err(word_error_at("", what, " size is out of bounds", self.offset())))
            } else {
                (c, Ok(n))
            },
        }
    }

    /// A name: its length in bytes, then its bytes, in UTF-8.
    pub open spec fn string(self) -> (Cursor, Result<Seq<char>>) {
        match self.var_u32() {
            (c, Err(e)) => (c, Err(e)),
            (c, Ok(len)) => if len > MAX_WASM_STRING_SIZE {
                (c, Err(error_at("string size out of bounds", c.offset() - 1)))
            } else {
                match c.take(len as int) {
                    (c, Err(e)) => (c, Err(e)),
                    (c, Ok(bytes)) => if valid_utf8(bytes) {
                        (c, Ok(decode_utf8(bytes)))
                    } else {
                        (c, Err(error_at("invalid UTF-8 encoding", c.offset() - 1)))
                    },
                }
            },
        }
    }
}

/// Half the count of numbers of `bits` bits.
pub open spec fn half(bits: nat) -> int {
    if bits == 0 {
        0
    } else {
        pow2((bits - 1) as nat) as int
    }
}

/// The low seven bits of a byte as a signed number.
pub open spec fn low_signed(b: u8) -> int {
    if b % 128 >= 64 {
        b % 128 - 128
    } else {
        (b % 128) as int
    }
}

/// The error for a number that goes on for too long, read up to `c`.
pub open spec fn too_long(what: &'static str, c: Cursor) -> BinaryReaderError {
    word_error_at("invalid ", what, ": integer representation too long", c.offset() - 1)
}

/// The error for a number with too many bits, read up to `c`.
pub open spec fn too_large(what: &'static str, c: Cursor) -> BinaryReaderError {
    word_error_at("invalid ", what, ": integer too large", c.offset() - 1)
}

/// Calls `std::str::from_utf8`, which succeeds exactly on valid UTF-8 and then
/// gives the string whose bytes are those of its argument.
#[verifier::external_body]
fn str_from_utf8<'a>(bytes: &'a [u8]) -> (result: Option<&'a str>)
    ensures
        result is Some <==> valid_utf8(bytes@),
        result matches Some(text) ==> encode_utf8(text@) == bytes@,
{
    std::str::from_utf8(bytes).ok()
}

/// A binary reader of WebAssembly structures and types.
#[derive(Clone, Copy, Debug)]
pub struct BinaryReader<'a> {
    buffer: &'a [u8],
    position: usize,
    original_offset: usize,
}

impl<'a> View for BinaryReader<'a> {
    type V = Cursor;

    closed spec fn view(&self) -> Cursor {
        Cursor {
            bytes: self.buffer@,
            pos: self.position as int,
            base: self.original_offset as int,
        }
    }
}

impl<'a> BinaryReader<'a> {
    /// The reader stands at a place of its bytes.
    pub open spec fn wf(&self) -> bool {
        self@.wf()
    }

    /// Constructs a reader of `data`, which starts at `original_offset` in the
    /// whole binary.
    pub fn new_with_offset(data: &'a [u8], original_offset: usize) -> (reader: Self)
        requires
            original_offset + data@.len() <= usize::MAX,
        ensures
            reader@ == Cursor::start(data@, original_offset as int),
            reader.wf(),
    {
        BinaryReader { buffer: data, position: 0, original_offset }
    }

    /// The offset of the next byte in the whole binary.
    pub fn original_position(&self) -> (offset: usize)
        requires
            self.wf(),
        ensures
            offset == self@.offset(),
    {
        self.original_offset + self.position
    }

    /// The offsets of all the bytes of this reader.
    pub fn range(&self) -> (range: Range)
        requires
            self.wf(),
        ensures
            range.start == self@.base,
            range.end == self@.base + self@.bytes.len(),
    {
        Range { start: self.original_offset, end: self.original_offset + self.buffer.len() }
    }

    /// How many bytes have been read.
    pub fn current_position(&self) -> (position: usize)
        ensures
            position == self@.pos,
    {
        self.position
    }

    /// How many bytes are left.
    pub fn bytes_remaining(&self) -> (left: usize)
        requires
            self.wf(),
        ensures
            left == self@.left(),
    {
        self.buffer.len() - self.position
    }

    /// Whether all bytes have been read.
    pub fn eof(&self) -> (done: bool)
        ensures
            done == (self@.pos >= self@.bytes.len()),
    {
        self.position >= self.buffer.len()
    }

    /// The next byte, which is not taken.
    pub fn peek(&self) -> (result: Result<u8>)
        requires
            self.wf(),
        ensures
            result == self@.byte().1,
    {
        if self.position < self.buffer.len() {
            Ok(self.buffer[self.position])
        } else {
            Err(BinaryReaderError::new("Unexpected EOF", self.original_position()))
        }
    }

    /// Reads one byte.
    pub fn read_u8(&mut self) -> (result: Result<u8>)
        requires
            old(self).wf(),
        ensures
            final(self).wf(),
            (final(self)@, result) == old(self)@.byte(),
    {
        let byte = self.peek()?;
        self.position = self.position + 1;
        Ok(byte)
    }

    /// Reads `size` bytes.
    pub fn read_bytes(&mut self, size: usize) -> (result: Result<&'a [u8]>)
        requires
            old(self).wf(),
        ensures
            final(self).wf(),
            (final(self)@, viewed(result)) == old(self)@.take(size as int),
    {
        if self.buffer.len() - self.position < size {
            return Err(BinaryReaderError::new("Unexpected EOF", self.original_position()));
        }
        let start = self.position;
        self.position = start + size;
        Ok(&self.buffer[start..start + size])
    }

    /// Reads a four byte little endian integer.
    pub fn read_u32(&mut self) -> (result: Result<u32>)
        requires
            old(self).wf(),
        ensures
            final(self).wf(),
            (final(self)@, result) == old(self)@.fixed_u32(),
    {
        if self.buffer.len() - self.position < 4 {
            return Err(BinaryReaderError::new("Unexpected EOF", self.original_position()));
        }
        let at = self.position;
        let n: u32 = self.buffer[at] as u32 + 0x100 * (self.buffer[at + 1] as u32) + 0x1_0000 * (
        self.buffer[at + 2] as u32) + 0x100_0000 * (self.buffer[at + 3] as u32);
        self.position = at + 4;
        Ok(n)
    }

    fn read_unsigned(&mut self, bits: u32, what: &'static str) -> (result: Result<u64>)
        requires
            old(self).wf(),
            1 <= bits <= 64,
        ensures
            final(self).wf(),
            final(self)@.follows(old(self)@),
            result is Ok ==> final(self)@.pos > old(self)@.pos,
            result matches Ok(n) ==> n < pow2(bits as nat),
            match (result, old(self)@.unsigned(bits as nat, what)) {
                (Ok(n), (c, Ok(m))) => final(self)@ == c && n == m,
                (Err(e), (c, Err(f))) => final(self)@ == c && e == f,
                _ => false,
            },
        decreases bits,
    {
        let byte = self.read_u8()?;
        proof {
            lemma_powers(bits as nat);
        }
        if bits <= 7 {
            let limit: u8 = 1u8 << bits;
            proof {
                lemma_shift_is_pow2(bits);
            }
            if byte < limit {
                Ok(byte as u64)
            } else if byte >= 0x80 {
                Err(
                    BinaryReaderError::with_word(
                        "invalid ",
                        what,
                        ": integer representation too long",
                        self.original_position() - 1,
                    ),
                )
            } else {
                Err(
                    BinaryReaderError::with_word(
                        "invalid ",
                        what,
                        ": integer too large",
                        self.original_position() - 1,
                    ),
                )
            }
        } else if byte < 0x80 {
            Ok(byte as u64)
        } else {
            let high = self.read_unsigned(bits - 7, what)?;
            Ok((byte - 0x80) as u64 + 0x80 * high)
        }
    }

    fn read_signed(&mut self, bits: u32, what: &'static str) -> (result: Result<i64>)
        requires
            old(self).wf(),
            1 <= bits <= 64,
        ensures
            final(self).wf(),
            final(self)@.follows(old(self)@),
            result is Ok ==> final(self)@.pos > old(self)@.pos,
            result matches Ok(n) ==> -half(bits as nat) <= n < half(bits as nat),
            match (result, old(self)@.signed(bits as nat, what)) {
                (Ok(n), (c, Ok(m))) => final(self)@ == c && n == m,
                (Err(e), (c, Err(f))) => final(self)@ == c && e == f,
                _ => false,
            },
        decreases bits,
    {
        let byte = self.read_u8()?;
        let low: i64 = if byte % 128 >= 64 {
            (byte % 128) as i64 - 128
        } else {
            (byte % 128) as i64
        };
        proof {
            lemma_powers(bits as nat);
        }
        if bits <= 7 {
            let half_range: i64 = (1u8 << (bits - 1)) as i64;
            proof {
                lemma_shift_is_pow2((bits - 1) as u32);
            }
            if byte >= 0x80 {
                Err(
                    BinaryReaderError::with_word(
                        "invalid ",
                        what,
                        ": integer representation too long",
                        self.original_position() - 1,
                    ),
                )
            } else if -half_range <= low && low < half_range {
                Ok(low)
            } else {
                Err(
                    BinaryReaderError::with_word(
                        "invalid ",
                        what,
                        ": integer too large",
                        self.original_position() - 1,
                    ),
                )
            }
        } else if byte < 0x80 {
            Ok(low)
        } else {
            let high = self.read_signed(bits - 7, what)?;
            Ok((byte - 0x80) as i64 + 0x80 * high)
        }
    }

    /// Reads an unsigned LEB128 number of 32 bits.
    pub fn read_var_u32(&mut self) -> (result: Result<u32>)
        requires
            old(self).wf(),
        ensures
            final(self).wf(),
            final(self)@.follows(old(self)@),
            result is Ok ==> final(self)@.pos > old(self)@.pos,
            (final(self)@, result) == old(self)@.var_u32(),
    {
        let n = self.read_unsigned(32, "var_u32")?;
        proof {
            vstd::arithmetic::power2::lemma2_to64();
        }
        Ok(n as u32)
    }

    /// Reads an unsigned LEB128 number of 64 bits.
    pub fn read_var_u64(&mut self) -> (result: Result<u64>)
        requires
            old(self).wf(),
        ensures
            final(self).wf(),
            final(self)@.follows(old(self)@),
            result is Ok ==> final(self)@.pos > old(self)@.pos,
            (final(self)@, result) == old(self)@.var_u64(),
    {
        self.read_unsigned(64, "var_u64")
    }

    /// Reads a signed LEB128 number of 32 bits.
    pub fn read_var_i32(&mut self) -> (result: Result<i32>)
        requires
            old(self).wf(),
        ensures
            final(self).wf(),
            final(self)@.follows(old(self)@),
            result is Ok ==> final(self)@.pos > old(self)@.pos,
            (final(self)@, result) == old(self)@.var_i32(),
    {
        let n = self.read_signed(32, "var_i32")?;
        proof {
            vstd::arithmetic::power2::lemma2_to64();
        }
        Ok(n as i32)
    }

    /// Reads a signed LEB128 number of 33 bits.
    pub fn read_var_s33(&mut self) -> (result: Result<i64>)
        requires
            old(self).wf(),
        ensures
            final(self).wf(),
            final(self)@.follows(old(self)@),
            result is Ok ==> final(self)@.pos > old(self)@.pos,
            (final(self)@, result) == old(self)@.var_s33(),
    {
        self.read_signed(33, "var_s33")
    }

    /// Reads a signed LEB128 number of 64 bits.
    pub fn read_var_i64(&mut self) -> (result: Result<i64>)
        requires
            old(self).wf(),
        ensures
            final(self).wf(),
            final(self)@.follows(old(self)@),
            result is Ok ==> final(self)@.pos > old(self)@.pos,
            (final(self)@, result) == old(self)@.var_i64(),
    {
        self.read_signed(64, "var_i64")
    }

    /// Reads a number of at most `limit`.
    pub fn read_size(&mut self, limit: usize, what: &'static str) -> (result: Result<usize>)
        requires
            old(self).wf(),
        ensures
            final(self).wf(),
            final(self)@.follows(old(self)@),
            result is Ok ==> final(self)@.pos > old(self)@.pos,
            match (result, old(self)@.size(limit as int, what)) {
                (Ok(n), (c, Ok(m))) => final(self)@ == c && n == m && n <= limit,
                (Err(e), (c, Err(f))) => final(self)@ == c && e == f,
                _ => false,
            },
    {
        let offset = self.original_position();
        let size = self.read_var_u32()? as usize;
        if size > limit {
            return Err(BinaryReaderError::with_word("", what, " size is out of bounds", offset));
        }
        Ok(size)
    }

    /// Reads a name.
    pub fn read_string(&mut self) -> (result: Result<&'a str>)
        requires
            old(self).wf(),
        ensures
            final(self).wf(),
            final(self)@.follows(old(self)@),
            result is Ok ==> final(self)@.pos > old(self)@.pos,
            (final(self)@, viewed(result)) == old(self)@.string(),
    {
        let len = self.read_var_u32()? as usize;
        if len > MAX_WASM_STRING_SIZE {
            return Err(
                BinaryReaderError::new("string size out of bounds", self.original_position() - 1),
            );
        }
        let bytes = self.read_bytes(len)?;
        match str_from_utf8(bytes) {
            Some(text) => {
                proof {
                    vstd::utf8::encode_utf8_decode_utf8(text@);
                }
                Ok(text)
            },
            None => Err(
                BinaryReaderError::new("invalid UTF-8 encoding", self.original_position() - 1),
            ),
        }
    }
}

/// How the powers of two of a number of bits and of seven bits fewer relate.
pub proof fn lemma_powers(bits: nat)
    requires
        1 <= bits <= 64,
    ensures
        bits <= 7 ==> pow2(bits) <= 0x80,
        bits > 7 ==> pow2(bits) == 0x80 * pow2((bits - 7) as nat),
        bits > 7 ==> pow2(bits) >= 0x80,
        bits > 7 ==> half(bits) == 0x80 * half((bits - 7) as nat),
        bits > 7 ==> half(bits) >= 0x80,
        half(bits) <= 0x8000_0000_0000_0000,
        pow2(bits) <= 0x1_0000_0000_0000_0000,
{
    vstd::arithmetic::power2::lemma2_to64();
    vstd::arithmetic::power2::lemma2_to64_rest();
    if bits > 7 {
        vstd::arithmetic::power2::lemma_pow2_adds((bits - 7) as nat, 7);
        vstd::arithmetic::power2::lemma_pow2_pos((bits - 7) as nat);
        if bits > 8 {
            vstd::arithmetic::power2::lemma_pow2_adds((bits - 8) as nat, 7);
            vstd::arithmetic::power2::lemma_pow2_pos((bits - 8) as nat);
        }
    }
    if bits < 64 {
        vstd::arithmetic::power2::lemma_pow2_strictly_increases(bits, 64);
    }
    if bits - 1 < 63 {
        vstd::arithmetic::power2::lemma_pow2_strictly_increases((bits - 1) as nat, 63);
    }
}

proof fn lemma_shift_is_pow2(bits: u32)
    requires
        bits <= 7,
    ensures
        1u8 << bits == pow2(bits as nat),
{
    vstd::arithmetic::power2::lemma2_to64();
    assert(1u8 << 0u32 == 1 && 1u8 << 1u32 == 2 && 1u8 << 2u32 == 4 && 1u8 << 3u32 == 8 && 1u8
        << 4u32 == 16 && 1u8 << 5u32 == 32 && 1u8 << 6u32 == 64 && 1u8 << 7u32 == 128)
        by (bit_vector);
}

} // verus!
