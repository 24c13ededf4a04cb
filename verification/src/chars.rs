//! Moving between texts and their characters.

use vstd::prelude::*;

verus! {

/// `String::push`: appends the character `c` to the text `s`.
#[verifier::external_body]
pub(crate) fn push_char(s: &mut String, c: char)
    ensures
        final(s)@ == old(s)@.push(c),
{
    s.push(c);
}

/// The characters of `s`, in order.
pub fn chars_of(s: &str) -> (v: Vec<char>)
    ensures
        v@ == s@,
{
    let mut v: Vec<char> = Vec::new();
    for c in it: s.chars()
        invariant
            v@ == it.seq().take(it.index() as int),
    {
        v.push(c);
    }
    v
}

/// Appends the characters of `chars` from position `start` on to `out`.
pub fn push_chars(out: &mut String, chars: &[char], start: usize)
    requires
        start <= chars@.len(),
    ensures
        final(out)@ == old(out)@ + chars@.skip(start as int),
{
    let mut i: usize = start;
    while i < chars.len()
        invariant
            start <= i <= chars@.len(),
            out@ == old(out)@ + chars@.subrange(start as int, i as int),
        decreases chars@.len() - i,
    {
        push_char(out, chars[i]);
        i += 1;
        assert(out@ =~= old(out)@ + chars@.subrange(start as int, i as int));
    }
    assert(chars@.subrange(start as int, i as int) =~= chars@.skip(start as int));
}

} // verus!
