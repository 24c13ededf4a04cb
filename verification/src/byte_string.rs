//! A sequence of bytes that may be absent, as the protocol's `ByteString`
//! type has it.

use crate::encoding::{i32_from_le, i32_le, lemma_i32_le_round_trip, write_bytes, write_i32};
use crate::encoding::{ByteReader, Context, DecodeError, Decoded, EncodeError};
use vstd::prelude::*;
use vstd::slice::slice_to_vec;

verus! {

/// Whether two slices hold the same bytes.
pub fn bytes_equal(a: &[u8], b: &[u8]) -> (r: bool)
    ensures
        r == (a@ == b@),
{
    if a.len() != b.len() {
        return false;
    }
    let mut i: usize = 0;
    while i < a.len()
        invariant
            i <= a.len(),
            a.len() == b.len(),
            forall|k: int| 0 <= k < i ==> a@[k] == b@[k],
        decreases a.len() - i,
    {
        if a[i] != b[i] {
            return false;
        }
        i += 1;
    }
    assert(a@ =~= b@);
    true
}

/// A sequence of bytes, or none at all. The absent sequence and the empty
/// sequence are two different values.
#[derive(Debug, Hash, Ord)]
pub struct ByteString {
    pub value: Option<Vec<u8>>,
}

impl View for ByteString {
    type V = Option<Seq<u8>>;

    open spec fn view(&self) -> Option<Seq<u8>> {
        match self.value {
            Some(v) => Some(v@),
            None => None,
        }
    }
}

/// The binary form of a byte string: its length as a signed 32-bit number,
/// then its bytes; the absent byte string is the length -1 alone.
pub open spec fn blob_encoding(blob: Option<Seq<u8>>) -> Seq<u8> {
    match blob {
        None => i32_le(-1i32),
        Some(bytes) => i32_le(bytes.len() as i32) + bytes,
    }
}

/// The number of bytes of a byte string; 0 for the absent one.
pub open spec fn blob_byte_count(blob: Option<Seq<u8>>) -> nat {
    match blob {
        None => 0,
        Some(bytes) => bytes.len(),
    }
}

/// What decoding makes of `input` as a byte string of at most `max_len` bytes.
pub open spec fn decode_blob(input: Seq<u8>, max_len: nat) -> Decoded<Option<Seq<u8>>> {
    if input.len() < 4 {
        Decoded { result: Err(DecodeError::Truncated), rest: input }
    } else {
        let len = i32_from_le(input[0], input[1], input[2], input[3]);
        let body = input.skip(4);
        if len == -1 {
            Decoded { result: Ok(None), rest: body }
        } else if len < -1 {
            Decoded { result: Err(DecodeError::InvalidLength), rest: body }
        } else if len > max_len {
            Decoded { result: Err(DecodeError::LengthExceedsLimit), rest: body }
        } else if body.len() < len {
            Decoded { result: Err(DecodeError::Truncated), rest: body }
        } else {
            Decoded { result: Ok(Some(body.take(len as int))), rest: body.skip(len as int) }
        }
    }
}

/// Decoding the binary form of a byte string that is short enough, with
/// anything after it, gives the byte string back and leaves what came after
/// it.
pub proof fn lemma_blob_encoding_round_trip(blob: Option<Seq<u8>>, tail: Seq<u8>, max_len: nat)
    requires
        blob_byte_count(blob) <= i32::MAX,
        blob_byte_count(blob) <= max_len,
    ensures
        blob_encoding(blob).len() == 4 + blob_byte_count(blob),
        decode_blob(blob_encoding(blob) + tail, max_len) == (Decoded {
            result: Ok(blob),
            rest: tail,
        }),
{
    let input = blob_encoding(blob) + tail;
    match blob {
        None => {
            lemma_i32_le_round_trip(-1i32);
            assert(input.skip(4) =~= tail);
        },
        Some(bytes) => {
            let len = bytes.len() as i32;
            lemma_i32_le_round_trip(len);
            assert(input.skip(4) =~= bytes + tail);
            assert(input.skip(4).take(len as int) =~= bytes);
            assert(input.skip(4).skip(len as int) =~= tail);
        },
    }
}

impl ByteString {
    /// The absent byte string.
    pub fn null() -> (b: ByteString)
        ensures
            b@ is None,
    {
        ByteString { value: None }
    }

    /// Whether this is the absent byte string.
    pub fn is_null(&self) -> (b: bool)
        ensures
            b == (self@ is None),
    {
        self.value.is_none()
    }

    /// The bytes, or no bytes where the byte string is absent.
    pub fn as_ref(&self) -> (bytes: &[u8])
        ensures
            bytes@ == match self@ {
                Some(b) => b,
                None => Seq::<u8>::empty(),
            },
    {
        match &self.value {
            Some(v) => v.as_slice(),
            None => &[],
        }
    }

    /// The number of bytes of the binary form, or `usize::MAX` where that
    /// number is larger.
    pub fn byte_len(&self, _ctx: &Context) -> (n: usize)
        ensures
            n == if 4 + blob_byte_count(self@) <= usize::MAX {
                4 + blob_byte_count(self@)
            } else {
                usize::MAX as nat
            },
    {
        match &self.value {
            Some(v) => v.len().saturating_add(4),
            None => 4,
        }
    }

    /// Appends the binary form to `stream`, or fails and appends nothing
    /// where there are more bytes than the length field can hold.
    pub fn encode(&self, stream: &mut Vec<u8>, _ctx: &Context) -> (r: Result<(), EncodeError>)
        ensures
            r is Ok <==> blob_byte_count(self@) <= i32::MAX,
            r is Ok ==> final(stream)@ == old(stream)@ + blob_encoding(self@),
            r is Err ==> final(stream)@ == old(stream)@,
    {
        match &self.value {
            Some(v) => {
                if v.len() > 0x7fff_ffff {
                    return Err(EncodeError::PayloadTooLong);
                }
                write_i32(stream, v.len() as i32);
                write_bytes(stream, v.as_slice());
                assert(stream@ =~= old(stream)@ + blob_encoding(self@));
                Ok(())
            },
            None => {
                write_i32(stream, -1);
                Ok(())
            },
        }
    }

    /// Reads a byte string in its binary form, of at most
    /// `ctx.max_byte_string_length` bytes.
    pub fn decode(reader: &mut ByteReader, ctx: &Context) -> (r: Result<ByteString, DecodeError>)
        ensures
            final(reader).remaining() == decode_blob(
                old(reader).remaining(),
                ctx.max_byte_string_length as nat,
            ).rest,
            match r {
                Ok(b) => decode_blob(
                    old(reader).remaining(),
                    ctx.max_byte_string_length as nat,
                ).result == Ok::<Option<Seq<u8>>, DecodeError>(b@),
                Err(e) => decode_blob(
                    old(reader).remaining(),
                    ctx.max_byte_string_length as nat,
                ).result == Err::<Option<Seq<u8>>, DecodeError>(e),
            },
    {
        let len = match reader.read_i32() {
            Ok(len) => len,
            Err(e) => {
                return Err(e);
            },
        };
        if len == -1 {
            return Ok(ByteString::null());
        }
        if len < -1 {
            return Err(DecodeError::InvalidLength);
        }
        if len as usize > ctx.max_byte_string_length {
            return Err(DecodeError::LengthExceedsLimit);
        }
        match reader.read_bytes(len as usize) {
            Ok(bytes) => Ok(ByteString { value: Some(slice_to_vec(bytes)) }),
            Err(e) => Err(e),
        }
    }
}

impl Clone for ByteString {
    fn clone(&self) -> (copy: ByteString)
        ensures
            copy@ == self@,
    {
        ByteString {
            value: match &self.value {
                Some(v) => Some(slice_to_vec(v.as_slice())),
                None => None,
            },
        }
    }
}

impl PartialEq for ByteString {
    fn eq(&self, other: &ByteString) -> (r: bool) {
        match (&self.value, &other.value) {
            (Some(a), Some(b)) => bytes_equal(a.as_slice(), b.as_slice()),
            (None, None) => true,
            _ => false,
        }
    }
}

impl Eq for ByteString {

}

impl vstd::std_specs::cmp::PartialEqSpecImpl for ByteString {
    open spec fn obeys_eq_spec() -> bool {
        true
    }

    open spec fn eq_spec(&self, other: &ByteString) -> bool {
        self@ == other@
    }
}

impl From<Vec<u8>> for ByteString {
    fn from(value: Vec<u8>) -> (b: ByteString) {
        ByteString { value: Some(value) }
    }
}

impl vstd::std_specs::convert::FromSpecImpl<Vec<u8>> for ByteString {
    open spec fn obeys_from_spec() -> bool {
        true
    }

    open spec fn from_spec(value: Vec<u8>) -> ByteString {
        ByteString { value: Some(value) }
    }
}

} // verus!
