//! Bytes in base64 notation: the standard alphabet, with padding.

use crate::chars::push_char;
use vstd::prelude::*;

verus! {

/// Whether `c` belongs to the base64 alphabet.
pub open spec fn is_base64_char(c: char) -> bool {
    ('A' <= c && c <= 'Z') || ('a' <= c && c <= 'z') || ('0' <= c && c <= '9') || c == '+' || c
        == '/'
}

/// The number from 0 to 63 that the character `c` of the alphabet stands
/// for.
pub open spec fn base64_value(c: char) -> int {
    if 'A' <= c && c <= 'Z' {
        c as int - 65
    } else if 'a' <= c && c <= 'z' {
        c as int - 71
    } else if '0' <= c && c <= '9' {
        c as int + 4
    } else if c == '+' {
        62
    } else {
        63
    }
}

/// The character of the alphabet that stands for `v`, a number from 0 to 63.
pub open spec fn base64_char(v: int) -> char {
    if v < 26 {
        (v + 65) as char
    } else if v < 52 {
        (v + 71) as char
    } else if v < 62 {
        (v - 4) as char
    } else if v == 62 {
        '+'
    } else {
        '/'
    }
}

/// The base64 notation of `bytes`: four characters for every three bytes;
/// one or two bytes at the end give two or three characters, filled up to
/// four with `=`.
pub open spec fn base64_text(bytes: Seq<u8>) -> Seq<char>
    decreases bytes.len(),
{
    if bytes.len() == 0 {
        Seq::<char>::empty()
    } else if bytes.len() == 1 {
        seq![base64_char(bytes[0] as int / 4), base64_char(bytes[0] as int % 4 * 16), '=', '=']
    } else if bytes.len() == 2 {
        seq![
            base64_char(bytes[0] as int / 4),
            base64_char(bytes[0] as int % 4 * 16 + bytes[1] as int / 16),
            base64_char(bytes[1] as int % 16 * 4),
            '=',
        ]
    } else {
        seq![
            base64_char(bytes[0] as int / 4),
            base64_char(bytes[0] as int % 4 * 16 + bytes[1] as int / 16),
            base64_char(bytes[1] as int % 16 * 4 + bytes[2] as int / 64),
            base64_char(bytes[2] as int % 64),
        ] + base64_text(bytes.skip(3))
    }
}

/// The bytes that `s` denotes in base64, where it denotes any. The length
/// of `s` is a multiple of four, `=` stands only at the end and only as far
/// as needed, and the bits of the last character that belong to no byte are
/// zero.
pub open spec fn parse_base64(s: Seq<char>) -> Option<Seq<u8>>
    decreases s.len(),
{
    if s.len() == 0 {
        Some(Seq::<u8>::empty())
    } else if s.len() < 4 {
        None
    } else if !is_base64_char(s[0]) || !is_base64_char(s[1]) {
        None
    } else {
        let v0 = base64_value(s[0]);
        let v1 = base64_value(s[1]);
        if s.len() == 4 && s[2] == '=' && s[3] == '=' {
            if v1 % 16 == 0 {
                Some(seq![(v0 * 4 + v1 / 16) as u8])
            } else {
                None
            }
        } else if !is_base64_char(s[2]) {
            None
        } else {
            let v2 = base64_value(s[2]);
            if s.len() == 4 && s[3] == '=' {
                if v2 % 4 == 0 {
                    Some(seq![(v0 * 4 + v1 / 16) as u8, (v1 % 16 * 16 + v2 / 4) as u8])
                } else {
                    None
                }
            } else if !is_base64_char(s[3]) {
                None
            } else {
                let v3 = base64_value(s[3]);
                match parse_base64(s.skip(4)) {
                    Some(rest) => Some(
                        seq![
                            (v0 * 4 + v1 / 16) as u8,
                            (v1 % 16 * 16 + v2 / 4) as u8,
                            (v2 % 4 * 64 + v3) as u8,
                        ] + rest,
                    ),
                    None => None,
                }
            }
        }
    }
}

/// A character that was made from a number belongs to the alphabet and
/// stands for that number.
pub proof fn lemma_base64_char(v: int)
    requires
        0 <= v < 64,
    ensures
        is_base64_char(base64_char(v)),
        base64_value(base64_char(v)) == v,
        base64_char(v) != '=',
        base64_char(v) != '\n',
{
}

/// Parsing the base64 notation of some bytes gives the bytes.
pub proof fn lemma_parse_base64_text(bytes: Seq<u8>)
    ensures
        parse_base64(base64_text(bytes)) == Some(bytes),
        bytes.len() > 0 ==> base64_text(bytes).len() >= 4,
        forall|i: int|
            0 <= i < base64_text(bytes).len() ==> #[trigger] base64_text(bytes)[i] != '\n',
    decreases bytes.len(),
{
    let s = base64_text(bytes);
    if bytes.len() == 0 {
        assert(bytes =~= Seq::<u8>::empty());
    } else {
        let b0 = bytes[0] as int;
        lemma_base64_char(b0 / 4);
        if bytes.len() == 1 {
            lemma_base64_char(b0 % 4 * 16);
            assert(seq![(b0 / 4 * 4 + b0 % 4 * 16 / 16) as u8] =~= bytes);
        } else {
            let b1 = bytes[1] as int;
            lemma_base64_char(b0 % 4 * 16 + b1 / 16);
            if bytes.len() == 2 {
                lemma_base64_char(b1 % 16 * 4);
                let v1 = b0 % 4 * 16 + b1 / 16;
                let v2 = b1 % 16 * 4;
                assert(seq![(b0 / 4 * 4 + v1 / 16) as u8, (v1 % 16 * 16 + v2 / 4) as u8]
                    =~= bytes);
            } else {
                let b2 = bytes[2] as int;
                lemma_base64_char(b1 % 16 * 4 + b2 / 64);
                lemma_base64_char(b2 % 64);
                lemma_parse_base64_text(bytes.skip(3));
                let v1 = b0 % 4 * 16 + b1 / 16;
                let v2 = b1 % 16 * 4 + b2 / 64;
                let v3 = b2 % 64;
                let head = seq![
                    base64_char(b0 / 4),
                    base64_char(v1),
                    base64_char(v2),
                    base64_char(v3),
                ];
                let tail = base64_text(bytes.skip(3));
                assert(s == head + tail);
                assert(s.skip(4) =~= tail);
                assert(s[0] == head[0] && s[1] == head[1] && s[2] == head[2] && s[3] == head[3]);
                assert(seq![
                    (b0 / 4 * 4 + v1 / 16) as u8,
                    (v1 % 16 * 16 + v2 / 4) as u8,
                    (v2 % 4 * 64 + v3) as u8,
                ] + bytes.skip(3) =~= bytes);
                assert forall|i: int| 0 <= i < s.len() implies #[trigger] s[i] != '\n' by {
                    if i >= 4 {
                        assert(s[i] == tail[i - 4]);
                    }
                }
            }
        }
    }
}

/// The value of `c`, where it belongs to the alphabet.
pub fn base64_value_of(c: char) -> (r: Option<u8>)
    ensures
        match r {
            Some(v) => is_base64_char(c) && v == base64_value(c) && v < 64,
            None => !is_base64_char(c),
        },
{
    if 'A' <= c && c <= 'Z' {
        Some((c as u32 - 65) as u8)
    } else if 'a' <= c && c <= 'z' {
        Some((c as u32 - 71) as u8)
    } else if '0' <= c && c <= '9' {
        Some((c as u32 + 4) as u8)
    } else if c == '+' {
        Some(62)
    } else if c == '/' {
        Some(63)
    } else {
        None
    }
}

/// The character of the alphabet for `v`.
pub fn base64_char_of(v: u8) -> (c: char)
    requires
        v < 64,
    ensures
        c == base64_char(v as int),
{
    if v < 26 {
        (v + 65) as char
    } else if v < 52 {
        (v + 71) as char
    } else if v < 62 {
        (v - 4) as char
    } else if v == 62 {
        '+'
    } else {
        '/'
    }
}

/// The bytes that the characters of `chars` from `start` on denote in
/// base64, where they denote any.
pub fn parse_base64_from(chars: &[char], start: usize) -> (r: Option<Vec<u8>>)
    requires
        start <= chars@.len(),
    ensures
        match r {
            Some(v) => parse_base64(chars@.skip(start as int)) == Some(v@),
            None => parse_base64(chars@.skip(start as int)) is None,
        },
{
    let ghost s = chars@.skip(start as int);
    let n = chars.len();
    let mut out: Vec<u8> = Vec::new();
    let mut i: usize = start;
    while i < n
        invariant
            start <= i <= n == chars@.len(),
            s == chars@.skip(start as int),
            parse_base64(s) == match parse_base64(chars@.skip(i as int)) {
                Some(rest) => Some(out@ + rest),
                None => None,
            },
        decreases n - i,
    {
        let ghost t = chars@.skip(i as int);
        if n - i < 4 {
            return None;
        }
        assert(t[0] == chars@[i as int] && t[1] == chars@[i + 1] && t[2] == chars@[i + 2] && t[3]
            == chars@[i + 3]);
        let v0 = match base64_value_of(chars[i]) {
            Some(v) => v,
            None => {
                return None;
            },
        };
        let v1 = match base64_value_of(chars[i + 1]) {
            Some(v) => v,
            None => {
                return None;
            },
        };
        let last = n - i == 4;
        if last && chars[i + 2] == '=' && chars[i + 3] == '=' {
            if v1 % 16 != 0 {
                return None;
            }
            out.push(v0 * 4 + v1 / 16);
            assert(parse_base64(s) == Some(out@));
            return Some(out);
        }
        let v2 = match base64_value_of(chars[i + 2]) {
            Some(v) => v,
            None => {
                return None;
            },
        };
        if last && chars[i + 3] == '=' {
            if v2 % 4 != 0 {
                return None;
            }
            out.push(v0 * 4 + v1 / 16);
            out.push(v1 % 16 * 16 + v2 / 4);
            assert(parse_base64(s) == Some(out@));
            return Some(out);
        }
        let v3 = match base64_value_of(chars[i + 3]) {
            Some(v) => v,
            None => {
                return None;
            },
        };
        let ghost before = out@;
        out.push(v0 * 4 + v1 / 16);
        out.push(v1 % 16 * 16 + v2 / 4);
        out.push(v2 % 4 * 64 + v3);
        i += 4;
        proof {
            assert(t.skip(4) =~= chars@.skip(i as int));
            let group = seq![
                (v0 * 4 + v1 / 16) as u8,
                (v1 % 16 * 16 + v2 / 4) as u8,
                (v2 % 4 * 64 + v3) as u8,
            ];
            assert(out@ =~= before + group);
            match parse_base64(chars@.skip(i as int)) {
                Some(rest) => {
                    assert(before + (group + rest) =~= out@ + rest);
                },
                None => {},
            }
        }
    }
    assert(chars@.skip(i as int) =~= Seq::<char>::empty());
    assert(out@ + Seq::<u8>::empty() =~= out@);
    Some(out)
}

/// Appends the base64 notation of `bytes` to `out`.
pub fn push_base64(out: &mut String, bytes: &[u8])
    ensures
        final(out)@ == old(out)@ + base64_text(bytes@),
{
    let n = bytes.len();
    let mut i: usize = 0;
    assert(bytes@.skip(0) =~= bytes@);
    while n - i >= 3
        invariant
            i <= n == bytes@.len(),
            out@ + base64_text(bytes@.skip(i as int)) == old(out)@ + base64_text(bytes@),
        decreases n - i,
    {
        let ghost t = bytes@.skip(i as int);
        let ghost before = out@;
        let b0 = bytes[i];
        let b1 = bytes[i + 1];
        let b2 = bytes[i + 2];
        push_char(out, base64_char_of(b0 / 4));
        push_char(out, base64_char_of(b0 % 4 * 16 + b1 / 16));
        push_char(out, base64_char_of(b1 % 16 * 4 + b2 / 64));
        push_char(out, base64_char_of(b2 % 64));
        i += 3;
        proof {
            assert(t.skip(3) =~= bytes@.skip(i as int));
            let group = seq![
                base64_char(b0 as int / 4),
                base64_char(b0 as int % 4 * 16 + b1 as int / 16),
                base64_char(b1 as int % 16 * 4 + b2 as int / 64),
                base64_char(b2 as int % 64),
            ];
            assert(out@ =~= before + group);
            assert(base64_text(t) == group + base64_text(t.skip(3)));
            assert(out@ + base64_text(bytes@.skip(i as int)) =~= before + base64_text(t));
        }
    }
    let ghost t = bytes@.skip(i as int);
    let ghost before = out@;
    if n - i == 1 {
        let b0 = bytes[i];
        push_char(out, base64_char_of(b0 / 4));
        push_char(out, base64_char_of(b0 % 4 * 16));
        push_char(out, '=');
        push_char(out, '=');
        assert(out@ =~= before + base64_text(t));
    } else if n - i == 2 {
        let b0 = bytes[i];
        let b1 = bytes[i + 1];
        push_char(out, base64_char_of(b0 / 4));
        push_char(out, base64_char_of(b0 % 4 * 16 + b1 / 16));
        push_char(out, base64_char_of(b1 % 16 * 4));
        push_char(out, '=');
        assert(out@ =~= before + base64_text(t));
    } else {
        assert(out@ =~= before + base64_text(t));
    }
}

} // verus!
