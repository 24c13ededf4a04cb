//! Bytes in hexadecimal notation, two digits a byte.

use crate::chars::push_char;
use vstd::prelude::*;

verus! {

/// Whether `c` is a hexadecimal digit, in either case.
pub open spec fn is_hex_digit(c: char) -> bool {
    ('0' <= c && c <= '9') || ('a' <= c && c <= 'f') || ('A' <= c && c <= 'F')
}

/// The number that the hexadecimal digit `c` stands for.
pub open spec fn hex_digit_value(c: char) -> int {
    if '0' <= c && c <= '9' {
        c as int - 48
    } else if 'a' <= c && c <= 'f' {
        c as int - 87
    } else {
        c as int - 55
    }
}

/// The hexadecimal digit, a lower-case one, that stands for `d`, a number
/// below 16.
pub open spec fn hex_digit_char(d: int) -> char {
    if d < 10 {
        (d + 48) as char
    } else {
        (d + 87) as char
    }
}

/// The hexadecimal notation of `bytes`: for each byte its upper four bits,
/// then its lower four, as lower-case digits.
pub open spec fn hex_text(bytes: Seq<u8>) -> Seq<char> {
    Seq::new(
        2 * bytes.len(),
        |i: int|
            if i % 2 == 0 {
                hex_digit_char(bytes[i / 2] as int / 16)
            } else {
                hex_digit_char(bytes[i / 2] as int % 16)
            },
    )
}

/// The bytes that `s` denotes, where `s` is an even number of hexadecimal
/// digits.
pub open spec fn parse_hex(s: Seq<char>) -> Option<Seq<u8>> {
    if s.len() % 2 == 0 && (forall|i: int| 0 <= i < s.len() ==> is_hex_digit(#[trigger] s[i])) {
        Some(
            Seq::new(
                s.len() / 2,
                |k: int| (16 * hex_digit_value(s[2 * k]) + hex_digit_value(s[2 * k + 1])) as u8,
            ),
        )
    } else {
        None
    }
}

/// A hexadecimal digit that was made from a number stands for that number.
pub proof fn lemma_hex_digit(d: int)
    requires
        0 <= d < 16,
    ensures
        is_hex_digit(hex_digit_char(d)),
        hex_digit_value(hex_digit_char(d)) == d,
        hex_digit_char(d) != '-',
        hex_digit_char(d) != '\n',
{
}

/// Parsing the hexadecimal notation of some bytes gives the bytes.
pub proof fn lemma_parse_hex_text(bytes: Seq<u8>)
    ensures
        hex_text(bytes).len() == 2 * bytes.len(),
        parse_hex(hex_text(bytes)) == Some(bytes),
{
    let s = hex_text(bytes);
    assert forall|i: int| 0 <= i < s.len() implies is_hex_digit(#[trigger] s[i]) by {
        lemma_hex_digit(bytes[i / 2] as int / 16);
        lemma_hex_digit(bytes[i / 2] as int % 16);
    }
    let parsed = Seq::new(
        s.len() / 2,
        |k: int| (16 * hex_digit_value(s[2 * k]) + hex_digit_value(s[2 * k + 1])) as u8,
    );
    assert forall|k: int| 0 <= k < bytes.len() implies parsed[k] == bytes[k] by {
        lemma_hex_digit(bytes[k] as int / 16);
        lemma_hex_digit(bytes[k] as int % 16);
        assert((2 * k) % 2 == 0 && (2 * k) / 2 == k);
        assert((2 * k + 1) % 2 == 1 && (2 * k + 1) / 2 == k);
    }
    assert(parsed =~= bytes);
}

/// The value of `c`, where it is a hexadecimal digit.
pub fn hex_value_of(c: char) -> (r: Option<u8>)
    ensures
        match r {
            Some(v) => is_hex_digit(c) && v == hex_digit_value(c),
            None => !is_hex_digit(c),
        },
{
    if '0' <= c && c <= '9' {
        Some((c as u32 - 48) as u8)
    } else if 'a' <= c && c <= 'f' {
        Some((c as u32 - 87) as u8)
    } else if 'A' <= c && c <= 'F' {
        Some((c as u32 - 55) as u8)
    } else {
        None
    }
}

/// The hexadecimal digit for `d`.
pub fn hex_char_of(d: u8) -> (c: char)
    requires
        d < 16,
    ensures
        c == hex_digit_char(d as int),
{
    if d < 10 {
        (48 + d) as char
    } else {
        (87 + d) as char
    }
}

/// The bytes that the characters of `chars` from `start` to `end` denote,
/// where they are an even number of hexadecimal digits.
pub fn parse_hex_range(chars: &[char], start: usize, end: usize) -> (r: Option<Vec<u8>>)
    requires
        start <= end <= chars@.len(),
    ensures
        match r {
            Some(v) => parse_hex(chars@.subrange(start as int, end as int)) == Some(v@),
            None => parse_hex(chars@.subrange(start as int, end as int)) is None,
        },
{
    let ghost s = chars@.subrange(start as int, end as int);
    if (end - start) % 2 != 0 {
        return None;
    }
    let mut out: Vec<u8> = Vec::new();
    let mut i: usize = start;
    while i < end
        invariant
            start <= i <= end <= chars@.len(),
            (end - start) % 2 == 0,
            (i - start) % 2 == 0,
            s == chars@.subrange(start as int, end as int),
            forall|j: int| 0 <= j < i - start ==> is_hex_digit(#[trigger] s[j]),
            out@.len() == (i - start) / 2,
            forall|k: int|
                0 <= k < out@.len() ==> #[trigger] out@[k] == (16 * hex_digit_value(s[2 * k])
                    + hex_digit_value(s[2 * k + 1])) as u8,
        decreases end - i,
    {
        let hi = match hex_value_of(chars[i]) {
            Some(v) => v,
            None => {
                assert(!is_hex_digit(s[i - start]));
                return None;
            },
        };
        let lo = match hex_value_of(chars[i + 1]) {
            Some(v) => v,
            None => {
                assert(!is_hex_digit(s[i + 1 - start]));
                return None;
            },
        };
        out.push(16 * hi + lo);
        i += 2;
    }
    assert(out@ =~= parse_hex(s).unwrap());
    Some(out)
}

/// Appends the hexadecimal notation of the bytes of `bytes` from `start` to
/// `end` to `out`.
pub fn push_hex(out: &mut String, bytes: &[u8], start: usize, end: usize)
    requires
        start <= end <= bytes@.len(),
    ensures
        final(out)@ == old(out)@ + hex_text(bytes@.subrange(start as int, end as int)),
{
    let ghost b = bytes@.subrange(start as int, end as int);
    let mut i: usize = start;
    while i < end
        invariant
            start <= i <= end <= bytes@.len(),
            b == bytes@.subrange(start as int, end as int),
            out@ == old(out)@ + hex_text(b).take(2 * (i - start)),
        decreases end - i,
    {
        let x = bytes[i];
        push_char(out, hex_char_of(x / 16));
        push_char(out, hex_char_of(x % 16));
        i += 1;
        proof {
            let k = 2 * (i - 1 - start);
            assert(k % 2 == 0 && k / 2 == i - 1 - start);
            assert((k + 1) % 2 == 1 && (k + 1) / 2 == i - 1 - start);
            assert(hex_text(b).take(k + 2) =~= hex_text(b).take(k).push(hex_text(b)[k]).push(
                hex_text(b)[k + 1],
            ));
            assert(out@ =~= old(out)@ + hex_text(b).take(2 * (i - start)));
        }
    }
    assert(hex_text(b).take(2 * (i - start)) =~= hex_text(b));
}

} // verus!
