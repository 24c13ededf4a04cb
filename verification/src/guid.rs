//! The 16-byte globally unique identifier of the protocol.

use crate::chars::{chars_of, push_char};
use crate::encoding::{ByteReader, DecodeError, Decoded};
use crate::hex::{hex_text, lemma_hex_digit, lemma_parse_hex_text, parse_hex, parse_hex_range};
use crate::hex::push_hex;
use vstd::prelude::*;

verus! {

/// A 128-bit globally unique identifier, held as its 16 bytes in the order
/// in which its textual form shows them.
#[derive(Clone, Copy, Debug, Hash, Ord)]
pub struct Guid {
    pub bytes: [u8; 16],
}

impl View for Guid {
    type V = Seq<u8>;

    open spec fn view(&self) -> Seq<u8> {
        self.bytes@
    }
}

/// The position in a guid's bytes of the byte that stands at position `i`
/// of its binary form, and the other way round: the first three groups, of
/// four, two and two bytes, are reversed, the last eight bytes keep their
/// place.
pub open spec fn guid_wire_index(i: int) -> int {
    if i < 4 {
        3 - i
    } else if i < 6 {
        9 - i
    } else if i < 8 {
        13 - i
    } else {
        i
    }
}

/// The binary form of a guid, or the guid of a binary form: the same 16
/// bytes in the other order.
pub open spec fn guid_swap(bytes: Seq<u8>) -> Seq<u8> {
    Seq::new(16, |i: int| bytes[guid_wire_index(i)])
}

/// What decoding makes of `input` as a guid.
pub open spec fn decode_guid(input: Seq<u8>) -> Decoded<Seq<u8>> {
    if input.len() < 16 {
        Decoded { result: Err(DecodeError::Truncated), rest: input }
    } else {
        Decoded { result: Ok(guid_swap(input.take(16))), rest: input.skip(16) }
    }
}

/// Decoding the binary form of a guid, with anything after it, gives the
/// guid back and leaves what came after it.
pub proof fn lemma_guid_encoding_round_trip(guid: Seq<u8>, tail: Seq<u8>)
    requires
        guid.len() == 16,
    ensures
        guid_swap(guid).len() == 16,
        decode_guid(guid_swap(guid) + tail) == (Decoded { result: Ok(guid), rest: tail }),
{
    let input = guid_swap(guid) + tail;
    assert(input.take(16) =~= guid_swap(guid));
    assert(input.skip(16) =~= tail);
    assert(guid_swap(guid_swap(guid)) =~= guid);
}

/// The textual form of a guid: its bytes in hexadecimal notation, in groups
/// of four, two, two, two and six bytes with a hyphen between them.
pub open spec fn guid_text(guid: Seq<u8>) -> Seq<char> {
    hex_text(guid.subrange(0, 4)) + seq!['-'] + hex_text(guid.subrange(4, 6)) + seq!['-']
        + hex_text(guid.subrange(6, 8)) + seq!['-'] + hex_text(guid.subrange(8, 10)) + seq!['-']
        + hex_text(guid.subrange(10, 16))
}

/// The guid that `s` denotes, where `s` is the textual form of one: 36
/// characters, hyphens at the four places, hexadecimal digits of either case
/// at the others.
pub open spec fn parse_guid_text(s: Seq<char>) -> Option<Seq<u8>> {
    if s.len() == 36 && s[8] == '-' && s[13] == '-' && s[18] == '-' && s[23] == '-' {
        match (
            parse_hex(s.subrange(0, 8)),
            parse_hex(s.subrange(9, 13)),
            parse_hex(s.subrange(14, 18)),
            parse_hex(s.subrange(19, 23)),
            parse_hex(s.subrange(24, 36)),
        ) {
            (Some(a), Some(b), Some(c), Some(d), Some(e)) => Some(a + b + c + d + e),
            _ => None,
        }
    } else {
        None
    }
}

/// Parsing the textual form of a guid gives the guid. The textual form has
/// 36 characters and no line feed among them.
pub proof fn lemma_parse_guid_text(guid: Seq<u8>)
    requires
        guid.len() == 16,
    ensures
        guid_text(guid).len() == 36,
        parse_guid_text(guid_text(guid)) == Some(guid),
        forall|i: int| 0 <= i < 36 ==> #[trigger] guid_text(guid)[i] != '\n',
{
    let s = guid_text(guid);
    let a = guid.subrange(0, 4);
    let b = guid.subrange(4, 6);
    let c = guid.subrange(6, 8);
    let d = guid.subrange(8, 10);
    let e = guid.subrange(10, 16);
    lemma_parse_hex_text(a);
    lemma_parse_hex_text(b);
    lemma_parse_hex_text(c);
    lemma_parse_hex_text(d);
    lemma_parse_hex_text(e);
    assert(s.subrange(0, 8) =~= hex_text(a));
    assert(s.subrange(9, 13) =~= hex_text(b));
    assert(s.subrange(14, 18) =~= hex_text(c));
    assert(s.subrange(19, 23) =~= hex_text(d));
    assert(s.subrange(24, 36) =~= hex_text(e));
    assert(a + b + c + d + e =~= guid);
    assert forall|i: int| 0 <= i < 36 implies #[trigger] s[i] != '\n' by {
        lemma_hex_text_has_no_line_feed(a);
        lemma_hex_text_has_no_line_feed(b);
        lemma_hex_text_has_no_line_feed(c);
        lemma_hex_text_has_no_line_feed(d);
        lemma_hex_text_has_no_line_feed(e);
        if i < 8 {
            assert(s[i] == hex_text(a)[i]);
        } else if 9 <= i < 13 {
            assert(s[i] == hex_text(b)[i - 9]);
        } else if 14 <= i < 18 {
            assert(s[i] == hex_text(c)[i - 14]);
        } else if 19 <= i < 23 {
            assert(s[i] == hex_text(d)[i - 19]);
        } else if 24 <= i {
            assert(s[i] == hex_text(e)[i - 24]);
        }
    }
}

/// No character of a hexadecimal notation is a line feed.
proof fn lemma_hex_text_has_no_line_feed(bytes: Seq<u8>)
    ensures
        forall|i: int| 0 <= i < hex_text(bytes).len() ==> #[trigger] hex_text(bytes)[i] != '\n',
{
    assert forall|i: int| 0 <= i < hex_text(bytes).len() implies #[trigger] hex_text(bytes)[i]
        != '\n' by {
        lemma_hex_digit(bytes[i / 2] as int / 16);
        lemma_hex_digit(bytes[i / 2] as int % 16);
    }
}

impl Guid {
    /// The guid that the characters of `chars` from `start` on denote, where
    /// they are the textual form of one.
    pub fn parse_from(chars: &[char], start: usize) -> (r: Option<Guid>)
        requires
            start <= chars@.len(),
        ensures
            match r {
                Some(g) => parse_guid_text(chars@.skip(start as int)) == Some(g@),
                None => parse_guid_text(chars@.skip(start as int)) is None,
            },
    {
        let ghost s = chars@.skip(start as int);
        if chars.len() - start != 36 {
            return None;
        }
        assert(s[8] == chars@[start + 8] && s[13] == chars@[start + 13] && s[18] == chars@[start
            + 18] && s[23] == chars@[start + 23]);
        if chars[start + 8] != '-' || chars[start + 13] != '-' || chars[start + 18] != '-'
            || chars[start + 23] != '-' {
            return None;
        }
        assert(s.subrange(0, 8) =~= chars@.subrange(start as int, start + 8));
        assert(s.subrange(9, 13) =~= chars@.subrange(start + 9, start + 13));
        assert(s.subrange(14, 18) =~= chars@.subrange(start + 14, start + 18));
        assert(s.subrange(19, 23) =~= chars@.subrange(start + 19, start + 23));
        assert(s.subrange(24, 36) =~= chars@.subrange(start + 24, start + 36));
        let a = match parse_hex_range(chars, start, start + 8) {
            Some(v) => v,
            None => {
                return None;
            },
        };
        let b = match parse_hex_range(chars, start + 9, start + 13) {
            Some(v) => v,
            None => {
                return None;
            },
        };
        let c = match parse_hex_range(chars, start + 14, start + 18) {
            Some(v) => v,
            None => {
                return None;
            },
        };
        let d = match parse_hex_range(chars, start + 19, start + 23) {
            Some(v) => v,
            None => {
                return None;
            },
        };
        let e = match parse_hex_range(chars, start + 24, start + 36) {
            Some(v) => v,
            None => {
                return None;
            },
        };
        let g = Guid {
            bytes: [
                a[0],
                a[1],
                a[2],
                a[3],
                b[0],
                b[1],
                c[0],
                c[1],
                d[0],
                d[1],
                e[0],
                e[1],
                e[2],
                e[3],
                e[4],
                e[5],
            ],
        };
        assert(g@ =~= a@ + b@ + c@ + d@ + e@);
        Some(g)
    }

    /// The guid that `s` denotes, where `s` is the textual form of one.
    pub fn parse(s: &str) -> (r: Option<Guid>)
        ensures
            match r {
                Some(g) => parse_guid_text(s@) == Some(g@),
                None => parse_guid_text(s@) is None,
            },
    {
        let chars = chars_of(s);
        assert(chars@.skip(0) =~= s@);
        Guid::parse_from(chars.as_slice(), 0)
    }

    /// Appends the textual form of the guid to `out`.
    pub fn push_text(&self, out: &mut String)
        ensures
            final(out)@ == old(out)@ + guid_text(self@),
    {
        let bytes = self.bytes.as_slice();
        push_hex(out, bytes, 0, 4);
        push_char(out, '-');
        push_hex(out, bytes, 4, 6);
        push_char(out, '-');
        push_hex(out, bytes, 6, 8);
        push_char(out, '-');
        push_hex(out, bytes, 8, 10);
        push_char(out, '-');
        push_hex(out, bytes, 10, 16);
        assert(out@ =~= old(out)@ + guid_text(self@));
    }

    /// The textual form of the guid.
    pub fn to_string(&self) -> (s: String)
        ensures
            s@ == guid_text(self@),
    {
        let mut out = String::new();
        self.push_text(&mut out);
        assert(Seq::<char>::empty() + guid_text(self@) =~= guid_text(self@));
        out
    }

    /// The guid whose bytes are all zero.
    pub fn null() -> (g: Guid)
        ensures
            g@ == Seq::new(16, |i: int| 0u8),
    {
        let g = Guid { bytes: [0u8;16] };
        assert(g@ =~= Seq::new(16, |i: int| 0u8));
        g
    }

    /// The guid with the given bytes.
    pub fn from_bytes(bytes: [u8; 16]) -> (g: Guid)
        ensures
            g@ == bytes@,
    {
        Guid { bytes }
    }

    /// The bytes of the guid.
    pub fn as_bytes(&self) -> (bytes: &[u8; 16])
        ensures
            bytes@ == self@,
    {
        &self.bytes
    }

    /// Whether all bytes of the guid are zero.
    pub fn is_null(&self) -> (b: bool)
        ensures
            b == (self@ == Seq::new(16, |i: int| 0u8)),
    {
        let mut i: usize = 0;
        while i < 16
            invariant
                i <= 16,
                forall|k: int| 0 <= k < i ==> self.bytes@[k] == 0,
            decreases 16 - i,
        {
            if self.bytes[i] != 0 {
                assert(self@[i as int] != Seq::new(16, |i: int| 0u8)[i as int]);
                return false;
            }
            i += 1;
        }
        assert(self@ =~= Seq::new(16, |i: int| 0u8));
        true
    }

    /// The number of bytes of the binary form.
    pub fn byte_len(&self) -> (n: usize)
        ensures
            n == 16,
    {
        16
    }

    /// Appends the binary form to `stream`.
    pub fn encode(&self, stream: &mut Vec<u8>)
        ensures
            final(stream)@ == old(stream)@ + guid_swap(self@),
    {
        let b = &self.bytes;
        let wire: [u8; 16] = [
            b[3],
            b[2],
            b[1],
            b[0],
            b[5],
            b[4],
            b[7],
            b[6],
            b[8],
            b[9],
            b[10],
            b[11],
            b[12],
            b[13],
            b[14],
            b[15],
        ];
        assert(wire@ =~= guid_swap(self@));
        stream.extend_from_slice(wire.as_slice());
    }

    /// Reads a guid in its binary form.
    pub fn decode(reader: &mut ByteReader) -> (r: Result<Guid, DecodeError>)
        ensures
            final(reader).remaining() == decode_guid(old(reader).remaining()).rest,
            match r {
                Ok(g) => decode_guid(old(reader).remaining()).result == Ok::<Seq<u8>, DecodeError>(
                    g@,
                ),
                Err(e) => decode_guid(old(reader).remaining()).result == Err::<
                    Seq<u8>,
                    DecodeError,
                >(e),
            },
    {
        match reader.read_bytes(16) {
            Ok(w) => {
                let g = Guid {
                    bytes: [
                        w[3],
                        w[2],
                        w[1],
                        w[0],
                        w[5],
                        w[4],
                        w[7],
                        w[6],
                        w[8],
                        w[9],
                        w[10],
                        w[11],
                        w[12],
                        w[13],
                        w[14],
                        w[15],
                    ],
                };
                assert(g@ =~= guid_swap(w@));
                Ok(g)
            },
            Err(e) => Err(e),
        }
    }
}

impl PartialEq for Guid {
    fn eq(&self, other: &Guid) -> (r: bool) {
        crate::byte_string::bytes_equal(self.bytes.as_slice(), other.bytes.as_slice())
    }
}

impl Eq for Guid {

}

impl vstd::std_specs::cmp::PartialEqSpecImpl for Guid {
    open spec fn obeys_eq_spec() -> bool {
        true
    }

    open spec fn eq_spec(&self, other: &Guid) -> bool {
        self@ == other@
    }
}

} // verus!
