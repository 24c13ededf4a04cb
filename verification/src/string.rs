//! Text that may be absent, as the protocol's `String` type has it.

use crate::encoding::{i32_from_le, i32_le, lemma_i32_le_round_trip, write_bytes, write_i32};
use crate::encoding::{ByteReader, Context, DecodeError, Decoded, EncodeError};
use vstd::prelude::*;
use vstd::utf8::{decode_utf8, encode_utf8, valid_utf8};
use vstd::utf8::{decode_utf8_encode_utf8, encode_utf8_decode_utf8, encode_utf8_valid_utf8};

verus! {

/// A UTF-8 text, or no text at all. The absent text and the empty text are
/// two different values.
#[derive(Debug, Hash, Ord)]
pub struct UAString {
    pub value: Option<String>,
}

impl View for UAString {
    type V = Option<Seq<char>>;

    open spec fn view(&self) -> Option<Seq<char>> {
        match self.value {
            Some(s) => Some(s@),
            None => None,
        }
    }
}

/// The binary form of a text: its length in bytes as a signed 32-bit number,
/// then its UTF-8 bytes; the absent text is the length -1 alone.
pub open spec fn text_encoding(text: Option<Seq<char>>) -> Seq<u8> {
    match text {
        None => i32_le(-1i32),
        Some(chars) => i32_le(encode_utf8(chars).len() as i32) + encode_utf8(chars),
    }
}

/// The number of UTF-8 bytes of a text; 0 for the absent text.
pub open spec fn text_byte_count(text: Option<Seq<char>>) -> nat {
    match text {
        None => 0,
        Some(chars) => encode_utf8(chars).len(),
    }
}

/// What decoding makes of `input` as a text of at most `max_len` bytes.
pub open spec fn decode_text(input: Seq<u8>, max_len: nat) -> Decoded<Option<Seq<char>>> {
    if input.len() < 4 {
        Decoded { result: Err(DecodeError::Truncated), rest: input }
    } else {
        let len = i32_from_le(input[0], input[1], input[2], input[3]);
        let body = input.skip(4);
        if len == -1 {
            Decoded { result: Ok(None), rest: body }
        } else if len < -1 {
            Decoded { result: Err(DecodeError::InvalidLength), rest: body }
        } else if len > max_len {
            Decoded { result: Err(DecodeError::LengthExceedsLimit), rest: body }
        } else if body.len() < len {
            Decoded { result: Err(DecodeError::Truncated), rest: body }
        } else if !valid_utf8(body.take(len as int)) {
            Decoded { result: Err(DecodeError::InvalidText), rest: body.skip(len as int) }
        } else {
            Decoded { result: Ok(Some(decode_utf8(body.take(len as int)))), rest: body.skip(len as int) }
        }
    }
}

/// Decoding the binary form of a text that is short enough, with anything
/// after it, gives the text back and leaves what came after it.
pub proof fn lemma_text_encoding_round_trip(text: Option<Seq<char>>, tail: Seq<u8>, max_len: nat)
    requires
        text_byte_count(text) <= i32::MAX,
        text_byte_count(text) <= max_len,
    ensures
        text_encoding(text).len() == 4 + text_byte_count(text),
        decode_text(text_encoding(text) + tail, max_len) == (Decoded {
            result: Ok(text),
            rest: tail,
        }),
{
    let input = text_encoding(text) + tail;
    match text {
        None => {
            lemma_i32_le_round_trip(-1i32);
            assert(input.skip(4) =~= tail);
        },
        Some(chars) => {
            let bytes = encode_utf8(chars);
            let len = bytes.len() as i32;
            lemma_i32_le_round_trip(len);
            assert(input.skip(4) =~= bytes + tail);
            assert(input.skip(4).take(len as int) =~= bytes);
            assert(input.skip(4).skip(len as int) =~= tail);
            encode_utf8_valid_utf8(chars);
            encode_utf8_decode_utf8(chars);
        },
    }
}

/// `std::str::from_utf8`: the text that `bytes` encode, where they are UTF-8,
/// and nothing where they are not.
#[verifier::external_body]
fn text_from_utf8(bytes: &[u8]) -> (r: Option<String>)
    ensures
        r is Some <==> valid_utf8(bytes@),
        r matches Some(s) ==> s@ == decode_utf8(bytes@),
{
    match std::str::from_utf8(bytes) {
        Ok(s) => Some(s.to_owned()),
        Err(_) => None,
    }
}

impl UAString {
    /// The absent text.
    pub fn null() -> (s: UAString)
        ensures
            s@ is None,
    {
        UAString { value: None }
    }

    /// Whether this is the absent text.
    pub fn is_null(&self) -> (b: bool)
        ensures
            b == (self@ is None),
    {
        self.value.is_none()
    }

    /// The text, or the empty text where it is absent.
    pub fn as_ref(&self) -> (s: &str)
        ensures
            s@ == match self@ {
                Some(chars) => chars,
                None => Seq::<char>::empty(),
            },
    {
        match &self.value {
            Some(s) => s.as_str(),
            None => {
                proof {
                    reveal_strlit("");
                }
                assert(""@ =~= Seq::<char>::empty());
                ""
            },
        }
    }

    /// The number of bytes of the binary form, or `usize::MAX` where that
    /// number is larger.
    pub fn byte_len(&self, _ctx: &Context) -> (n: usize)
        ensures
            n == if 4 + text_byte_count(self@) <= usize::MAX {
                4 + text_byte_count(self@)
            } else {
                usize::MAX as nat
            },
    {
        match &self.value {
            Some(s) => s.as_str().as_bytes().len().saturating_add(4),
            None => 4,
        }
    }

    /// Appends the binary form to `stream`, or fails and appends nothing
    /// where the text has more bytes than the length field can hold.
    pub fn encode(&self, stream: &mut Vec<u8>, _ctx: &Context) -> (r: Result<(), EncodeError>)
        ensures
            r is Ok <==> text_byte_count(self@) <= i32::MAX,
            r is Ok ==> final(stream)@ == old(stream)@ + text_encoding(self@),
            r is Err ==> final(stream)@ == old(stream)@,
    {
        match &self.value {
            Some(s) => {
                let bytes = s.as_str().as_bytes();
                if bytes.len() > 0x7fff_ffff {
                    return Err(EncodeError::PayloadTooLong);
                }
                write_i32(stream, bytes.len() as i32);
                write_bytes(stream, bytes);
                assert(stream@ =~= old(stream)@ + text_encoding(self@));
                Ok(())
            },
            None => {
                write_i32(stream, -1);
                Ok(())
            },
        }
    }

    /// Reads a text in its binary form, of at most `ctx.max_string_length`
    /// bytes.
    pub fn decode(reader: &mut ByteReader, ctx: &Context) -> (r: Result<UAString, DecodeError>)
        ensures
            final(reader).remaining() == decode_text(
                old(reader).remaining(),
                ctx.max_string_length as nat,
            ).rest,
            match r {
                Ok(s) => decode_text(old(reader).remaining(), ctx.max_string_length as nat).result
                    == Ok::<Option<Seq<char>>, DecodeError>(s@),
                Err(e) => decode_text(old(reader).remaining(), ctx.max_string_length as nat).result
                    == Err::<Option<Seq<char>>, DecodeError>(e),
            },
    {
        let len = match reader.read_i32() {
            Ok(len) => len,
            Err(e) => {
                return Err(e);
            },
        };
        if len == -1 {
            return Ok(UAString::null());
        }
        if len < -1 {
            return Err(DecodeError::InvalidLength);
        }
        if len as usize > ctx.max_string_length {
            return Err(DecodeError::LengthExceedsLimit);
        }
        let bytes = match reader.read_bytes(len as usize) {
            Ok(bytes) => bytes,
            Err(e) => {
                return Err(e);
            },
        };
        match text_from_utf8(bytes) {
            Some(s) => Ok(UAString { value: Some(s) }),
            None => Err(DecodeError::InvalidText),
        }
    }
}

impl Clone for UAString {
    fn clone(&self) -> (copy: UAString)
        ensures
            copy@ == self@,
    {
        UAString {
            value: match &self.value {
                Some(s) => Some(s.clone()),
                None => None,
            },
        }
    }
}

impl PartialEq for UAString {
    fn eq(&self, other: &UAString) -> (r: bool) {
        match (&self.value, &other.value) {
            (Some(a), Some(b)) => {
                proof {
                    encode_utf8_decode_utf8(a@);
                    encode_utf8_decode_utf8(b@);
                }
                crate::byte_string::bytes_equal(a.as_str().as_bytes(), b.as_str().as_bytes())
            },
            (None, None) => true,
            _ => false,
        }
    }
}

impl Eq for UAString {

}

impl vstd::std_specs::cmp::PartialEqSpecImpl for UAString {
    open spec fn obeys_eq_spec() -> bool {
        true
    }

    open spec fn eq_spec(&self, other: &UAString) -> bool {
        self@ == other@
    }
}

impl From<String> for UAString {
    fn from(value: String) -> (s: UAString) {
        UAString { value: Some(value) }
    }
}

impl vstd::std_specs::convert::FromSpecImpl<String> for UAString {
    open spec fn obeys_from_spec() -> bool {
        true
    }

    open spec fn from_spec(value: String) -> UAString {
        UAString { value: Some(value) }
    }
}

impl<'a> From<&'a str> for UAString {
    fn from(value: &'a str) -> (s: UAString)
        ensures
            s@ == Some(value@),
    {
        UAString { value: Some(value.to_owned()) }
    }
}

impl<'a> vstd::std_specs::convert::FromSpecImpl<&'a str> for UAString {
    open spec fn obeys_from_spec() -> bool {
        false
    }

    open spec fn from_spec(value: &'a str) -> UAString {
        arbitrary()
    }
}

} // verus!
