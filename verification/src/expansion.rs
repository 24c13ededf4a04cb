//! The expansion of the environment variables in the texts of a settings
//! document, and the reading of what comes out as the scalar that it
//! denotes.

use crate::chars::chars_of;
use crate::decimal::{parse_decimal, parse_decimal_range};
use vstd::prelude::*;

verus! {

/// What a scalar of a settings document is read as, once the environment
/// variables in it have been expanded.
#[derive(Debug)]
pub enum ExpandedValue {
    /// No value.
    Null,
    /// A truth value.
    Bool(bool),
    /// A whole number that fits 64 bits with a sign.
    Integer(i64),
    /// A whole number that fits 64 bits only without a sign.
    Unsigned(u64),
    /// Anything else: the text itself.
    Text(String),
}

/// An `ExpandedValue` as a mathematical value.
pub ghost enum ExpandedModel {
    Null,
    Bool(bool),
    Integer(i64),
    Unsigned(u64),
    Text(Seq<char>),
}

impl Clone for ExpandedValue {
    fn clone(&self) -> (copy: ExpandedValue)
        ensures
            copy@ == self@,
    {
        match self {
            ExpandedValue::Null => ExpandedValue::Null,
            ExpandedValue::Bool(b) => ExpandedValue::Bool(*b),
            ExpandedValue::Integer(i) => ExpandedValue::Integer(*i),
            ExpandedValue::Unsigned(u) => ExpandedValue::Unsigned(*u),
            ExpandedValue::Text(s) => ExpandedValue::Text(s.clone()),
        }
    }
}

impl View for ExpandedValue {
    type V = ExpandedModel;

    open spec fn view(&self) -> ExpandedModel {
        match self {
            ExpandedValue::Null => ExpandedModel::Null,
            ExpandedValue::Bool(b) => ExpandedModel::Bool(*b),
            ExpandedValue::Integer(i) => ExpandedModel::Integer(*i),
            ExpandedValue::Unsigned(u) => ExpandedModel::Unsigned(*u),
            ExpandedValue::Text(s) => ExpandedModel::Text(s@),
        }
    }
}

/// The whole number that `s` denotes with an optional sign, `+` or `-`, and
/// one or more digits, where it is no less than -9223372036854775808 and no
/// more than 9223372036854775807.
pub open spec fn parse_signed(s: Seq<char>) -> Option<int> {
    if s.len() > 0 && s[0] == '-' {
        match parse_decimal(s.skip(1), 0x8000_0000_0000_0000) {
            Some(n) => Some(-(n as int)),
            None => None,
        }
    } else if s.len() > 0 && s[0] == '+' {
        match parse_decimal(s.skip(1), 0x7fff_ffff_ffff_ffff) {
            Some(n) => Some(n as int),
            None => None,
        }
    } else {
        match parse_decimal(s, 0x7fff_ffff_ffff_ffff) {
            Some(n) => Some(n as int),
            None => None,
        }
    }
}

/// The whole number that `s` denotes with an optional `+` and one or more
/// digits, where it is no more than 18446744073709551615.
pub open spec fn parse_unsigned(s: Seq<char>) -> Option<nat> {
    if s.len() > 0 && s[0] == '+' {
        parse_decimal(s.skip(1), 0xffff_ffff_ffff_ffff)
    } else {
        parse_decimal(s, 0xffff_ffff_ffff_ffff)
    }
}

/// What the expanded text `s` is read as: `null` and `~` as no value,
/// `true` and `false` as truth values, a whole number as that number, and
/// any other text as itself.
pub open spec fn interpret(s: Seq<char>) -> ExpandedModel {
    if s == seq!['n', 'u', 'l', 'l'] || s == seq!['~'] {
        ExpandedModel::Null
    } else if s == seq!['t', 'r', 'u', 'e'] {
        ExpandedModel::Bool(true)
    } else if s == seq!['f', 'a', 'l', 's', 'e'] {
        ExpandedModel::Bool(false)
    } else {
        match parse_signed(s) {
            Some(i) => ExpandedModel::Integer(i as i64),
            None => match parse_unsigned(s) {
                Some(u) => ExpandedModel::Unsigned(u as u64),
                None => ExpandedModel::Text(s),
            },
        }
    }
}

/// What the outcome of an expansion is read as: a text that could not be
/// expanded as no value, an expanded text as `interpret` says.
pub open spec fn interpret_outcome(expanded: Option<Seq<char>>) -> ExpandedModel {
    match expanded {
        Some(s) => interpret(s),
        None => ExpandedModel::Null,
    }
}

/// The characters of a text that may be absent.
pub open spec fn text_of(text: Option<String>) -> Option<Seq<char>> {
    match text {
        Some(s) => Some(s@),
        None => None,
    }
}

/// Whether `chars` are the four characters `a`, `b`, `c`, `d`.
fn is_word4(chars: &[char], a: char, b: char, c: char, d: char) -> (r: bool)
    ensures
        r == (chars@ == seq![a, b, c, d]),
{
    if chars.len() == 4 && chars[0] == a && chars[1] == b && chars[2] == c && chars[3] == d {
        assert(chars@ =~= seq![a, b, c, d]);
        true
    } else {
        if chars.len() == 4 {
            assert(seq![a, b, c, d][0] == a && seq![a, b, c, d][1] == b && seq![a, b, c, d][2]
                == c && seq![a, b, c, d][3] == d);
        } else {
            assert(seq![a, b, c, d].len() == 4);
        }
        false
    }
}

/// The whole number that `chars` denote with an optional sign, where it
/// fits 64 bits with a sign.
pub fn parse_i64(chars: &[char]) -> (r: Option<i64>)
    ensures
        match r {
            Some(i) => parse_signed(chars@) == Some(i as int),
            None => parse_signed(chars@) is None,
        },
{
    let n = chars.len();
    assert(chars@ =~= chars@.subrange(0, n as int));
    assert(chars@.skip(1) =~= chars@.subrange(1, n as int));
    if n > 0 && chars[0] == '-' {
        match parse_decimal_range(chars, 1, n, 0x8000_0000_0000_0000) {
            Some(v) => if v == 0x8000_0000_0000_0000 {
                Some(i64::MIN)
            } else {
                Some(-(v as i64))
            },
            None => None,
        }
    } else if n > 0 && chars[0] == '+' {
        match parse_decimal_range(chars, 1, n, 0x7fff_ffff_ffff_ffff) {
            Some(v) => Some(v as i64),
            None => None,
        }
    } else {
        match parse_decimal_range(chars, 0, n, 0x7fff_ffff_ffff_ffff) {
            Some(v) => Some(v as i64),
            None => None,
        }
    }
}

/// The whole number that `chars` denote with an optional `+`, where it fits
/// 64 bits without a sign.
pub fn parse_u64(chars: &[char]) -> (r: Option<u64>)
    ensures
        match r {
            Some(u) => parse_unsigned(chars@) == Some(u as nat),
            None => parse_unsigned(chars@) is None,
        },
{
    let n = chars.len();
    assert(chars@ =~= chars@.subrange(0, n as int));
    assert(chars@.skip(1) =~= chars@.subrange(1, n as int));
    if n > 0 && chars[0] == '+' {
        parse_decimal_range(chars, 1, n, 0xffff_ffff_ffff_ffff)
    } else {
        parse_decimal_range(chars, 0, n, 0xffff_ffff_ffff_ffff)
    }
}

/// What the outcome of an expansion is read as.
pub fn interpret_expanded(expanded: Option<String>) -> (value: ExpandedValue)
    ensures
        value@ == interpret_outcome(text_of(expanded)),
{
    let text = match expanded {
        Some(text) => text,
        None => {
            return ExpandedValue::Null;
        },
    };
    let chars = chars_of(text.as_str());
    let c = chars.as_slice();
    if is_word4(c, 'n', 'u', 'l', 'l') {
        return ExpandedValue::Null;
    }
    if c.len() == 1 && c[0] == '~' {
        assert(c@ =~= seq!['~']);
        return ExpandedValue::Null;
    }
    assert(c@ != seq!['~']) by {
        if c@.len() == 1 {
            assert(seq!['~'][0] == '~');
        } else {
            assert(seq!['~'].len() == 1);
        }
    }
    if is_word4(c, 't', 'r', 'u', 'e') {
        return ExpandedValue::Bool(true);
    }
    if c.len() == 5 && c[0] == 'f' && c[1] == 'a' && c[2] == 'l' && c[3] == 's' && c[4] == 'e' {
        assert(c@ =~= seq!['f', 'a', 'l', 's', 'e']);
        return ExpandedValue::Bool(false);
    }
    assert(c@ != seq!['f', 'a', 'l', 's', 'e']) by {
        let w = seq!['f', 'a', 'l', 's', 'e'];
        if c@.len() == 5 {
            assert(w[0] == 'f' && w[1] == 'a' && w[2] == 'l' && w[3] == 's' && w[4] == 'e');
        } else {
            assert(w.len() == 5);
        }
    }
    match parse_i64(c) {
        Some(i) => ExpandedValue::Integer(i),
        None => match parse_u64(c) {
            Some(u) => ExpandedValue::Unsigned(u),
            None => ExpandedValue::Text(text),
        },
    }
}

/// `shellexpand::env`: `input` with the environment variables that it
/// refers to replaced by their values, or nothing where one of them is not
/// set. What comes back depends on the environment of the process, but for
/// an `input` without a dollar sign: that comes back as it is.
#[verifier::external_body]
fn expand_env(input: &str) -> (expanded: Option<String>)
    ensures
        expanded is Some || input@.contains('$'),
        expanded matches Some(s) ==> s@ == input@ || input@.contains('$'),
{
    match shellexpand::env(input) {
        Ok(expanded) => Some(expanded.into_owned()),
        Err(_) => None,
    }
}

/// What the scalar `input` of a settings document is read as with the
/// environment variables in it expanded: what some outcome of the expansion
/// is read as, and, where `input` has no dollar sign, what `input` itself
/// is read as.
pub fn expand_env_in_scalar(input: &str) -> (value: ExpandedValue)
    ensures
        exists|expanded: Option<Seq<char>>| value@ == interpret_outcome(expanded),
        !input@.contains('$') ==> value@ == interpret(input@),
{
    let expanded = expand_env(input);
    let ghost outcome = text_of(expanded);
    let value = interpret_expanded(expanded);
    assert(value@ == interpret_outcome(outcome));
    value
}

/// A value of a settings document.
#[derive(Debug, PartialEq)]
pub enum Value {
    /// No value.
    Null,
    /// A truth value.
    Bool(bool),
    /// A whole number that fits 64 bits with a sign.
    Integer(i64),
    /// A whole number that fits 64 bits only without a sign.
    Unsigned(u64),
    /// A number that is not whole, as the text that denotes it.
    Real(String),
    /// A text.
    String(String),
    /// A text that came out of an expansion and denotes no truth value and
    /// no whole number. Whether it denotes a number that is not whole is
    /// left to who reads the value.
    Expanded(String),
    /// A sequence of values.
    Sequence(Vec<Value>),
    /// The entries of a mapping, each a key and a value.
    Mapping(Vec<(Value, Value)>),
    /// A value with a tag.
    Tagged(String, Box<Value>),
}

/// The scalar that `value` is, where it is one that an expansion can give.
pub open spec fn scalar_of(value: Value) -> Option<ExpandedModel> {
    match value {
        Value::Null => Some(ExpandedModel::Null),
        Value::Bool(b) => Some(ExpandedModel::Bool(b)),
        Value::Integer(i) => Some(ExpandedModel::Integer(i)),
        Value::Unsigned(u) => Some(ExpandedModel::Unsigned(u)),
        Value::Expanded(s) => Some(ExpandedModel::Text(s@)),
        _ => None,
    }
}

/// Whether `after` is `before` with its texts expanded: every text that is
/// an item of a sequence or the value of an entry of a mapping, at any
/// depth, or the document itself, has become what some outcome of an
/// expansion is read as, and a text without a dollar sign what the text
/// itself is read as; everything else is the same value as it was, the keys
/// of mappings and what stands under a tag too.
pub open spec fn is_expansion(before: Value, after: Value) -> bool
    decreases before,
{
    match before {
        Value::String(s) => {
            &&& exists|outcome: Option<Seq<char>>|
                scalar_of(after) == Some(interpret_outcome(outcome))
            &&& !s@.contains('$') ==> scalar_of(after) == Some(interpret(s@))
        },
        Value::Sequence(items) => {
            &&& after matches Value::Sequence(expanded)
            &&& expanded@.len() == items@.len()
            &&& forall|i: int|
                0 <= i < items@.len() ==> is_expansion(#[trigger] items@[i], expanded@[i])
        },
        Value::Mapping(entries) => {
            &&& after matches Value::Mapping(expanded)
            &&& expanded@.len() == entries@.len()
            &&& forall|i: int|
                0 <= i < entries@.len() ==> {
                    &&& same_value((#[trigger] entries@[i]).0, expanded@[i].0)
                    &&& is_expansion(entries@[i].1, expanded@[i].1)
                }
        },
        _ => same_value(before, after),
    }
}

/// Whether `a` and `b` are the same value: of the same shape, with the same
/// truth values, numbers and characters at the same places.
pub open spec fn same_value(a: Value, b: Value) -> bool
    decreases a,
{
    match (a, b) {
        (Value::Null, Value::Null) => true,
        (Value::Bool(x), Value::Bool(y)) => x == y,
        (Value::Integer(x), Value::Integer(y)) => x == y,
        (Value::Unsigned(x), Value::Unsigned(y)) => x == y,
        (Value::Real(x), Value::Real(y)) => x@ == y@,
        (Value::String(x), Value::String(y)) => x@ == y@,
        (Value::Expanded(x), Value::Expanded(y)) => x@ == y@,
        (Value::Sequence(x), Value::Sequence(y)) => {
            &&& x@.len() == y@.len()
            &&& forall|i: int| 0 <= i < x@.len() ==> same_value(#[trigger] x@[i], y@[i])
        },
        (Value::Mapping(x), Value::Mapping(y)) => {
            &&& x@.len() == y@.len()
            &&& forall|i: int|
                0 <= i < x@.len() ==> {
                    &&& same_value((#[trigger] x@[i]).0, y@[i].0)
                    &&& same_value(x@[i].1, y@[i].1)
                }
        },
        (Value::Tagged(s, x), Value::Tagged(t, y)) => s@ == t@ && same_value(*x, *y),
        _ => false,
    }
}

/// The value that stands for the scalar `scalar`.
pub fn scalar_value(scalar: ExpandedValue) -> (value: Value)
    ensures
        scalar_of(value) == Some(scalar@),
{
    match scalar {
        ExpandedValue::Null => Value::Null,
        ExpandedValue::Bool(b) => Value::Bool(b),
        ExpandedValue::Integer(i) => Value::Integer(i),
        ExpandedValue::Unsigned(u) => Value::Unsigned(u),
        ExpandedValue::Text(s) => Value::Expanded(s),
    }
}

impl Clone for Value {
    fn clone(&self) -> (copy: Value)
        ensures
            same_value(*self, copy),
        decreases self,
    {
        match self {
            Value::Null => Value::Null,
            Value::Bool(b) => Value::Bool(*b),
            Value::Integer(i) => Value::Integer(*i),
            Value::Unsigned(u) => Value::Unsigned(*u),
            Value::Real(s) => Value::Real(s.clone()),
            Value::String(s) => Value::String(s.clone()),
            Value::Expanded(s) => Value::Expanded(s.clone()),
            Value::Sequence(items) => {
                let mut copies: Vec<Value> = Vec::new();
                let mut i: usize = 0;
                while i < items.len()
                    invariant
                        i <= items@.len(),
                        copies@.len() == i,
                        *self == Value::Sequence(*items),
                        forall|k: int| 0 <= k < i ==> same_value(#[trigger] items@[k], copies@[k]),
                    decreases items@.len() - i,
                {
                    assert(decreases_to!(*self => self->Sequence_0));
                    assert(decreases_to!(*items => items[i as int]));
                    copies.push(items[i].clone());
                    i += 1;
                }
                Value::Sequence(copies)
            },
            Value::Mapping(entries) => {
                let mut copies: Vec<(Value, Value)> = Vec::new();
                let mut i: usize = 0;
                while i < entries.len()
                    invariant
                        i <= entries@.len(),
                        copies@.len() == i,
                        *self == Value::Mapping(*entries),
                        forall|k: int|
                            0 <= k < i ==> {
                                &&& same_value((#[trigger] entries@[k]).0, copies@[k].0)
                                &&& same_value(entries@[k].1, copies@[k].1)
                            },
                    decreases entries@.len() - i,
                {
                    assert(decreases_to!(*self => self->Mapping_0));
                    assert(decreases_to!(*entries => entries[i as int]));
                    copies.push((entries[i].0.clone(), entries[i].1.clone()));
                    i += 1;
                }
                Value::Mapping(copies)
            },
            Value::Tagged(tag, value) => Value::Tagged(tag.clone(), Box::new((**value).clone())),
        }
    }
}

/// The document `value` with the environment variables in its texts
/// expanded, and each text read as the scalar that it then denotes. A text
/// is expanded where it is the document, an item of a sequence or the value
/// of an entry of a mapping, at any depth; the keys of mappings and what
/// stands under a tag are left as they are.
pub fn expand_env_in_value(value: &Value) -> (expanded: Value)
    ensures
        is_expansion(*value, expanded),
    decreases value,
{
    match value {
        Value::String(s) => scalar_value(expand_env_in_scalar(s.as_str())),
        Value::Sequence(items) => {
            let mut expanded: Vec<Value> = Vec::new();
            let mut i: usize = 0;
            while i < items.len()
                invariant
                    i <= items@.len(),
                    expanded@.len() == i,
                    *value == Value::Sequence(*items),
                    forall|k: int|
                        0 <= k < i ==> is_expansion(#[trigger] items@[k], expanded@[k]),
                decreases items@.len() - i,
            {
                assert(decreases_to!(*value => value->Sequence_0));
                assert(decreases_to!(*items => items[i as int]));
                expanded.push(expand_env_in_value(&items[i]));
                i += 1;
            }
            Value::Sequence(expanded)
        },
        Value::Mapping(entries) => {
            let mut expanded: Vec<(Value, Value)> = Vec::new();
            let mut i: usize = 0;
            while i < entries.len()
                invariant
                    i <= entries@.len(),
                    expanded@.len() == i,
                    *value == Value::Mapping(*entries),
                    forall|k: int|
                        0 <= k < i ==> {
                            &&& same_value((#[trigger] entries@[k]).0, expanded@[k].0)
                            &&& is_expansion(entries@[k].1, expanded@[k].1)
                        },
                decreases entries@.len() - i,
            {
                assert(decreases_to!(*value => value->Mapping_0));
                assert(decreases_to!(*entries => entries[i as int]));
                expanded.push((entries[i].0.clone(), expand_env_in_value(&entries[i].1)));
                i += 1;
            }
            Value::Mapping(expanded)
        },
        _ => value.clone(),
    }
}

} // verus!
