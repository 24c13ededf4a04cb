//! Primitives of the binary encoding: little-endian integers written to a
//! byte buffer and read back from a byte slice.

use vstd::prelude::*;
use vstd::slice::slice_subrange;

verus! {

/// Why a value could not be decoded from its binary form.
#[derive(Clone, Copy, Debug, PartialEq, Eq, Structural)]
pub enum DecodeError {
    /// The first byte of a node identifier is none of the known tags. Holds that byte.
    MalformedTag(u8),
    /// The input ends before the value does.
    Truncated,
    /// A length field is negative and is not the marker of an absent value.
    InvalidLength,
    /// A length field is larger than the limit that the decoding context allows.
    LengthExceedsLimit,
    /// The bytes of a text are not UTF-8.
    InvalidText,
}

/// Why a value could not be encoded in its binary form.
#[derive(Clone, Copy, Debug, PartialEq, Eq, Structural)]
pub enum EncodeError {
    /// A text or a byte string has more bytes than a length field can hold.
    PayloadTooLong,
}

/// What decoding makes of an input: the value or the error, and the input
/// that is left unread.
pub ghost struct Decoded<T> {
    pub result: Result<T, DecodeError>,
    pub rest: Seq<u8>,
}

/// Limits that a decoder respects when it reads a length-prefixed value.
#[derive(Clone, Copy, Debug)]
pub struct Context {
    /// The largest number of bytes that a decoded text may have.
    pub max_string_length: usize,
    /// The largest number of bytes that a decoded byte string may have.
    pub max_byte_string_length: usize,
}

impl Context {
    /// A context with the given limits.
    pub fn new(max_string_length: usize, max_byte_string_length: usize) -> (ctx: Context)
        ensures
            ctx.max_string_length == max_string_length,
            ctx.max_byte_string_length == max_byte_string_length,
    {
        Context { max_string_length, max_byte_string_length }
    }
}

impl Default for Context {
    /// Both limits are 65535 bytes.
    fn default() -> (ctx: Context)
        ensures
            ctx.max_string_length == 65535,
            ctx.max_byte_string_length == 65535,
    {
        Context { max_string_length: 65535, max_byte_string_length: 65535 }
    }
}

/// The two bytes of `v`, least significant first.
pub open spec fn u16_le(v: u16) -> Seq<u8> {
    seq![(v % 256) as u8, (v / 256) as u8]
}

/// The four bytes of `v`, least significant first.
pub open spec fn u32_le(v: u32) -> Seq<u8> {
    seq![
        (v % 256) as u8,
        (v / 256 % 256) as u8,
        (v / 65536 % 256) as u8,
        (v / 16777216) as u8,
    ]
}

/// The four bytes of `v` in two's complement, least significant first.
pub open spec fn i32_le(v: i32) -> Seq<u8> {
    u32_le(
        if v >= 0 {
            v as u32
        } else {
            (v + 0x1_0000_0000) as u32
        },
    )
}

/// The number whose little-endian bytes are `b0`, `b1`.
pub open spec fn u16_from_le(b0: u8, b1: u8) -> u16 {
    (b0 + 256 * b1) as u16
}

/// The number whose little-endian bytes are `b0` to `b3`.
pub open spec fn u32_from_le(b0: u8, b1: u8, b2: u8, b3: u8) -> u32 {
    (b0 + 256 * b1 + 65536 * b2 + 16777216 * b3) as u32
}

/// The signed number whose little-endian two's complement bytes are `b0` to `b3`.
pub open spec fn i32_from_le(b0: u8, b1: u8, b2: u8, b3: u8) -> i32 {
    let u = u32_from_le(b0, b1, b2, b3);
    if u < 0x8000_0000 {
        u as i32
    } else {
        (u - 0x1_0000_0000) as i32
    }
}

/// Reading back the bytes of a 16-bit number gives the number.
pub proof fn lemma_u16_le_round_trip(v: u16)
    ensures
        u16_le(v).len() == 2,
        u16_from_le(u16_le(v)[0], u16_le(v)[1]) == v,
{
}

/// Reading back the bytes of a 32-bit number gives the number.
pub proof fn lemma_u32_le_round_trip(v: u32)
    ensures
        u32_le(v).len() == 4,
        u32_from_le(u32_le(v)[0], u32_le(v)[1], u32_le(v)[2], u32_le(v)[3]) == v,
{
}

/// Reading back the bytes of a signed 32-bit number gives the number.
pub proof fn lemma_i32_le_round_trip(v: i32)
    ensures
        i32_le(v).len() == 4,
        i32_from_le(i32_le(v)[0], i32_le(v)[1], i32_le(v)[2], i32_le(v)[3]) == v,
{
    let u: u32 = if v >= 0 {
        v as u32
    } else {
        (v + 0x1_0000_0000) as u32
    };
    lemma_u32_le_round_trip(u);
}

/// Appends one byte to `stream`.
pub fn write_u8(stream: &mut Vec<u8>, value: u8)
    ensures
        final(stream)@ == old(stream)@.push(value),
{
    stream.push(value);
}

/// Appends the two little-endian bytes of `value` to `stream`.
pub fn write_u16(stream: &mut Vec<u8>, value: u16)
    ensures
        final(stream)@ == old(stream)@ + u16_le(value),
{
    stream.push((value % 256) as u8);
    stream.push((value / 256) as u8);
    assert(stream@ =~= old(stream)@ + u16_le(value));
}

/// Appends the four little-endian bytes of `value` to `stream`.
pub fn write_u32(stream: &mut Vec<u8>, value: u32)
    ensures
        final(stream)@ == old(stream)@ + u32_le(value),
{
    stream.push((value % 256) as u8);
    stream.push((value / 256 % 256) as u8);
    stream.push((value / 65536 % 256) as u8);
    stream.push((value / 16777216) as u8);
    assert(stream@ =~= old(stream)@ + u32_le(value));
}

/// Appends the four little-endian two's complement bytes of `value` to `stream`.
pub fn write_i32(stream: &mut Vec<u8>, value: i32)
    ensures
        final(stream)@ == old(stream)@ + i32_le(value),
{
    let bits: u32 = if value >= 0 {
        value as u32
    } else {
        (value as i64 + 0x1_0000_0000) as u32
    };
    write_u32(stream, bits);
}

/// Appends `bytes` to `stream`.
pub fn write_bytes(stream: &mut Vec<u8>, bytes: &[u8])
    ensures
        final(stream)@ == old(stream)@ + bytes@,
{
    stream.extend_from_slice(bytes);
}

/// A reading position in a byte slice: what has not been read yet.
pub struct ByteReader<'a> {
    rest: &'a [u8],
}

impl<'a> ByteReader<'a> {
    /// The bytes that have not been read yet.
    pub closed spec fn remaining(&self) -> Seq<u8> {
        self.rest@
    }

    /// A reader at the start of `bytes`.
    pub fn new(bytes: &'a [u8]) -> (reader: ByteReader<'a>)
        ensures
            reader.remaining() == bytes@,
    {
        ByteReader { rest: bytes }
    }

    /// How many bytes have not been read yet.
    pub fn len(&self) -> (n: usize)
        ensures
            n == self.remaining().len(),
    {
        self.rest.len()
    }

    /// Reads `n` bytes, or reads nothing and fails where fewer are left.
    pub fn read_bytes(&mut self, n: usize) -> (r: Result<&'a [u8], DecodeError>)
        ensures
            match r {
                Ok(bytes) => {
                    &&& n <= old(self).remaining().len()
                    &&& bytes@ == old(self).remaining().take(n as int)
                    &&& final(self).remaining() == old(self).remaining().skip(n as int)
                },
                Err(e) => {
                    &&& e == DecodeError::Truncated
                    &&& n > old(self).remaining().len()
                    &&& final(self).remaining() == old(self).remaining()
                },
            },
    {
        let rest = self.rest;
        if n > rest.len() {
            return Err(DecodeError::Truncated);
        }
        let head = slice_subrange(rest, 0, n);
        self.rest = slice_subrange(rest, n, rest.len());
        Ok(head)
    }

    /// Reads one byte.
    pub fn read_u8(&mut self) -> (r: Result<u8, DecodeError>)
        ensures
            match r {
                Ok(v) => {
                    &&& 1 <= old(self).remaining().len()
                    &&& v == old(self).remaining()[0]
                    &&& final(self).remaining() == old(self).remaining().skip(1)
                },
                Err(e) => {
                    &&& e == DecodeError::Truncated
                    &&& old(self).remaining().len() < 1
                    &&& final(self).remaining() == old(self).remaining()
                },
            },
    {
        match self.read_bytes(1) {
            Ok(b) => Ok(b[0]),
            Err(e) => Err(e),
        }
    }

    /// Reads a 16-bit number from two little-endian bytes.
    pub fn read_u16(&mut self) -> (r: Result<u16, DecodeError>)
        ensures
            match r {
                Ok(v) => {
                    &&& 2 <= old(self).remaining().len()
                    &&& v == u16_from_le(old(self).remaining()[0], old(self).remaining()[1])
                    &&& final(self).remaining() == old(self).remaining().skip(2)
                },
                Err(e) => {
                    &&& e == DecodeError::Truncated
                    &&& old(self).remaining().len() < 2
                    &&& final(self).remaining() == old(self).remaining()
                },
            },
    {
        match self.read_bytes(2) {
            Ok(b) => Ok(b[0] as u16 + 256 * (b[1] as u16)),
            Err(e) => Err(e),
        }
    }

    /// Reads a 32-bit number from four little-endian bytes.
    pub fn read_u32(&mut self) -> (r: Result<u32, DecodeError>)
        ensures
            match r {
                Ok(v) => {
                    &&& 4 <= old(self).remaining().len()
                    &&& v == u32_from_le(
                        old(self).remaining()[0],
                        old(self).remaining()[1],
                        old(self).remaining()[2],
                        old(self).remaining()[3],
                    )
                    &&& final(self).remaining() == old(self).remaining().skip(4)
                },
                Err(e) => {
                    &&& e == DecodeError::Truncated
                    &&& old(self).remaining().len() < 4
                    &&& final(self).remaining() == old(self).remaining()
                },
            },
    {
        match self.read_bytes(4) {
            Ok(b) => Ok(
                b[0] as u32 + 256 * (b[1] as u32) + 65536 * (b[2] as u32) + 16777216 * (
                b[3] as u32),
            ),
            Err(e) => Err(e),
        }
    }

    /// Reads a signed 32-bit number from four little-endian two's complement bytes.
    pub fn read_i32(&mut self) -> (r: Result<i32, DecodeError>)
        ensures
            match r {
                Ok(v) => {
                    &&& 4 <= old(self).remaining().len()
                    &&& v == i32_from_le(
                        old(self).remaining()[0],
                        old(self).remaining()[1],
                        old(self).remaining()[2],
                        old(self).remaining()[3],
                    )
                    &&& final(self).remaining() == old(self).remaining().skip(4)
                },
                Err(e) => {
                    &&& e == DecodeError::Truncated
                    &&& old(self).remaining().len() < 4
                    &&& final(self).remaining() == old(self).remaining()
                },
            },
    {
        match self.read_u32() {
            Ok(u) => if u < 0x8000_0000 {
                Ok(u as i32)
            } else {
                Ok((u as i64 - 0x1_0000_0000) as i32)
            },
            Err(e) => Err(e),
        }
    }
}

} // verus!
