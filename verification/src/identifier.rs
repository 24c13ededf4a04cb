//! The four kinds of identifier that a node can have within its namespace.

use crate::base64::{base64_text, parse_base64, parse_base64_from, push_base64};
use crate::byte_string::ByteString;
use crate::chars::{chars_of, push_char, push_chars};
use crate::decimal::{decimal_text, parse_decimal, parse_decimal_range, push_decimal};
use crate::guid::{guid_text, parse_guid_text, Guid};
use crate::string::UAString;
use vstd::prelude::*;

verus! {

/// What identifies a node within its namespace: a number, a text, a guid or
/// a sequence of bytes.
#[derive(Debug, Hash, Ord)]
pub enum Identifier {
    Numeric(u32),
    String(UAString),
    Guid(Guid),
    ByteString(ByteString),
}

/// An identifier as a mathematical value.
pub ghost enum IdentifierModel {
    Numeric(u32),
    String(Option<Seq<char>>),
    Guid(Seq<u8>),
    ByteString(Option<Seq<u8>>),
}

impl View for Identifier {
    type V = IdentifierModel;

    open spec fn view(&self) -> IdentifierModel {
        match self {
            Identifier::Numeric(v) => IdentifierModel::Numeric(*v),
            Identifier::String(v) => IdentifierModel::String(v@),
            Identifier::Guid(v) => IdentifierModel::Guid(v@),
            Identifier::ByteString(v) => IdentifierModel::ByteString(v@),
        }
    }
}

/// The textual form of an identifier: a letter for its kind, `=`, and the
/// value. A number is written in decimal, a text as it is, a guid in its
/// own textual form, a sequence of bytes in base64; an absent text or
/// sequence of bytes is written as an empty one.
pub open spec fn identifier_text(id: IdentifierModel) -> Seq<char> {
    match id {
        IdentifierModel::Numeric(value) => seq!['i', '='] + decimal_text(value as nat),
        IdentifierModel::String(text) => seq!['s', '='] + match text {
            Some(chars) => chars,
            None => Seq::<char>::empty(),
        },
        IdentifierModel::Guid(guid) => seq!['g', '='] + guid_text(guid),
        IdentifierModel::ByteString(blob) => seq!['b', '='] + base64_text(
            match blob {
                Some(bytes) => bytes,
                None => Seq::<u8>::empty(),
            },
        ),
    }
}

/// The identifier that `s` denotes, where it denotes one: after `i=` a
/// decimal number that fits 32 bits, after `s=` any text, which is taken as
/// it is, after `g=` the textual form of a guid, after `b=` bytes in base64.
pub open spec fn parse_identifier(s: Seq<char>) -> Option<IdentifierModel> {
    if s.len() < 2 || s[1] != '=' {
        None
    } else if s[0] == 'i' {
        match parse_decimal(s.skip(2), u32::MAX as nat) {
            Some(value) => Some(IdentifierModel::Numeric(value as u32)),
            None => None,
        }
    } else if s[0] == 's' {
        Some(IdentifierModel::String(Some(s.skip(2))))
    } else if s[0] == 'g' {
        match parse_guid_text(s.skip(2)) {
            Some(guid) => Some(IdentifierModel::Guid(guid)),
            None => None,
        }
    } else if s[0] == 'b' {
        match parse_base64(s.skip(2)) {
            Some(bytes) => Some(IdentifierModel::ByteString(Some(bytes))),
            None => None,
        }
    } else {
        None
    }
}

impl Identifier {
    /// The identifier that the characters of `chars` from `start` on
    /// denote, where they denote one.
    pub fn parse_from(chars: &[char], start: usize) -> (r: Option<Identifier>)
        requires
            start <= chars@.len(),
        ensures
            match r {
                Some(id) => parse_identifier(chars@.skip(start as int)) == Some(id@),
                None => parse_identifier(chars@.skip(start as int)) is None,
            },
    {
        let ghost s = chars@.skip(start as int);
        let n = chars.len();
        if n - start < 2 {
            return None;
        }
        assert(s[0] == chars@[start as int] && s[1] == chars@[start + 1]);
        assert(s.skip(2) =~= chars@.skip(start + 2));
        if chars[start + 1] != '=' {
            return None;
        }
        let kind = chars[start];
        if kind == 'i' {
            assert(s.skip(2) =~= chars@.subrange(start + 2, n as int));
            match parse_decimal_range(chars, start + 2, n, 0xffff_ffff) {
                Some(value) => Some(Identifier::Numeric(value as u32)),
                None => None,
            }
        } else if kind == 's' {
            let mut text = String::new();
            push_chars(&mut text, chars, start + 2);
            assert(text@ =~= s.skip(2));
            Some(Identifier::String(UAString { value: Some(text) }))
        } else if kind == 'g' {
            match Guid::parse_from(chars, start + 2) {
                Some(guid) => Some(Identifier::Guid(guid)),
                None => None,
            }
        } else if kind == 'b' {
            match parse_base64_from(chars, start + 2) {
                Some(bytes) => Some(Identifier::ByteString(ByteString { value: Some(bytes) })),
                None => None,
            }
        } else {
            None
        }
    }

    /// The identifier that `s` denotes, where it denotes one.
    pub fn parse(s: &str) -> (r: Option<Identifier>)
        ensures
            match r {
                Some(id) => parse_identifier(s@) == Some(id@),
                None => parse_identifier(s@) is None,
            },
    {
        let chars = chars_of(s);
        assert(chars@.skip(0) =~= s@);
        Identifier::parse_from(chars.as_slice(), 0)
    }

    /// Appends the textual form of the identifier to `out`.
    pub fn push_text(&self, out: &mut String)
        ensures
            final(out)@ == old(out)@ + identifier_text(self@),
    {
        match self {
            Identifier::Numeric(value) => {
                push_char(out, 'i');
                push_char(out, '=');
                push_decimal(out, *value as u64);
            },
            Identifier::String(text) => {
                push_char(out, 's');
                push_char(out, '=');
                out.append(text.as_ref());
            },
            Identifier::Guid(guid) => {
                push_char(out, 'g');
                push_char(out, '=');
                guid.push_text(out);
            },
            Identifier::ByteString(blob) => {
                push_char(out, 'b');
                push_char(out, '=');
                push_base64(out, blob.as_ref());
            },
        }
        assert(out@ =~= old(out)@ + identifier_text(self@));
    }

    /// The textual form of the identifier.
    pub fn to_string(&self) -> (s: String)
        ensures
            s@ == identifier_text(self@),
    {
        let mut out = String::new();
        self.push_text(&mut out);
        assert(Seq::<char>::empty() + identifier_text(self@) =~= identifier_text(self@));
        out
    }

    /// Whether the identifier is a number.
    pub fn is_numeric(&self) -> (b: bool)
        ensures
            b == (self@ is Numeric),
    {
        match self {
            Identifier::Numeric(_) => true,
            _ => false,
        }
    }

    /// Whether the identifier is a text.
    pub fn is_string(&self) -> (b: bool)
        ensures
            b == (self@ is String),
    {
        match self {
            Identifier::String(_) => true,
            _ => false,
        }
    }

    /// Whether the identifier is a guid.
    pub fn is_guid(&self) -> (b: bool)
        ensures
            b == (self@ is Guid),
    {
        match self {
            Identifier::Guid(_) => true,
            _ => false,
        }
    }

    /// Whether the identifier is a sequence of bytes.
    pub fn is_byte_string(&self) -> (b: bool)
        ensures
            b == (self@ is ByteString),
    {
        match self {
            Identifier::ByteString(_) => true,
            _ => false,
        }
    }

    /// The number, where the identifier is one.
    pub fn as_u32(&self) -> (r: Option<u32>)
        ensures
            r == match self@ {
                IdentifierModel::Numeric(v) => Some(v),
                _ => None,
            },
    {
        match self {
            Identifier::Numeric(v) => Some(*v),
            _ => None,
        }
    }

    /// The text, where the identifier is one.
    pub fn as_string(&self) -> (r: Option<&UAString>)
        ensures
            match r {
                Some(s) => self@ == IdentifierModel::String(s@),
                None => !(self@ is String),
            },
    {
        match self {
            Identifier::String(v) => Some(v),
            _ => None,
        }
    }

    /// The guid, where the identifier is one.
    pub fn as_guid(&self) -> (r: Option<&Guid>)
        ensures
            match r {
                Some(g) => self@ == IdentifierModel::Guid(g@),
                None => !(self@ is Guid),
            },
    {
        match self {
            Identifier::Guid(v) => Some(v),
            _ => None,
        }
    }

    /// The sequence of bytes, where the identifier is one.
    pub fn as_byte_string(&self) -> (r: Option<&ByteString>)
        ensures
            match r {
                Some(b) => self@ == IdentifierModel::ByteString(b@),
                None => !(self@ is ByteString),
            },
    {
        match self {
            Identifier::ByteString(v) => Some(v),
            _ => None,
        }
    }
}

impl std::str::FromStr for Identifier {
    type Err = ();

    /// The identifier that `s` denotes, or an error where it denotes none.
    fn from_str(s: &str) -> (r: Result<Identifier, ()>)
        ensures
            match r {
                Ok(id) => parse_identifier(s@) == Some(id@),
                Err(_) => parse_identifier(s@) is None,
            },
    {
        match Identifier::parse(s) {
            Some(id) => Ok(id),
            None => Err(()),
        }
    }
}

impl Clone for Identifier {
    fn clone(&self) -> (copy: Identifier)
        ensures
            copy@ == self@,
    {
        match self {
            Identifier::Numeric(v) => Identifier::Numeric(*v),
            Identifier::String(v) => Identifier::String(v.clone()),
            Identifier::Guid(v) => Identifier::Guid(*v),
            Identifier::ByteString(v) => Identifier::ByteString(v.clone()),
        }
    }
}

impl PartialEq for Identifier {
    fn eq(&self, other: &Identifier) -> (r: bool) {
        match (self, other) {
            (Identifier::Numeric(a), Identifier::Numeric(b)) => *a == *b,
            (Identifier::String(a), Identifier::String(b)) => a == b,
            (Identifier::Guid(a), Identifier::Guid(b)) => a == b,
            (Identifier::ByteString(a), Identifier::ByteString(b)) => a == b,
            _ => false,
        }
    }
}

impl Eq for Identifier {

}

impl vstd::std_specs::cmp::PartialEqSpecImpl for Identifier {
    open spec fn obeys_eq_spec() -> bool {
        true
    }

    open spec fn eq_spec(&self, other: &Identifier) -> bool {
        self@ == other@
    }
}

impl From<u32> for Identifier {
    fn from(value: u32) -> (id: Identifier) {
        Identifier::Numeric(value)
    }
}

impl vstd::std_specs::convert::FromSpecImpl<u32> for Identifier {
    open spec fn obeys_from_spec() -> bool {
        true
    }

    open spec fn from_spec(value: u32) -> Identifier {
        Identifier::Numeric(value)
    }
}

impl From<UAString> for Identifier {
    fn from(value: UAString) -> (id: Identifier) {
        Identifier::String(value)
    }
}

impl vstd::std_specs::convert::FromSpecImpl<UAString> for Identifier {
    open spec fn obeys_from_spec() -> bool {
        true
    }

    open spec fn from_spec(value: UAString) -> Identifier {
        Identifier::String(value)
    }
}

impl From<Guid> for Identifier {
    fn from(value: Guid) -> (id: Identifier) {
        Identifier::Guid(value)
    }
}

impl vstd::std_specs::convert::FromSpecImpl<Guid> for Identifier {
    open spec fn obeys_from_spec() -> bool {
        true
    }

    open spec fn from_spec(value: Guid) -> Identifier {
        Identifier::Guid(value)
    }
}

impl From<ByteString> for Identifier {
    fn from(value: ByteString) -> (id: Identifier) {
        Identifier::ByteString(value)
    }
}

impl vstd::std_specs::convert::FromSpecImpl<ByteString> for Identifier {
    open spec fn obeys_from_spec() -> bool {
        true
    }

    open spec fn from_spec(value: ByteString) -> Identifier {
        Identifier::ByteString(value)
    }
}

impl From<String> for Identifier {
    fn from(value: String) -> (id: Identifier) {
        Identifier::String(UAString { value: Some(value) })
    }
}

impl vstd::std_specs::convert::FromSpecImpl<String> for Identifier {
    open spec fn obeys_from_spec() -> bool {
        true
    }

    open spec fn from_spec(value: String) -> Identifier {
        Identifier::String(UAString { value: Some(value) })
    }
}

impl<'a> From<&'a str> for Identifier {
    fn from(value: &'a str) -> (id: Identifier)
        ensures
            id@ == IdentifierModel::String(Some(value@)),
    {
        Identifier::String(UAString { value: Some(value.to_owned()) })
    }
}

impl<'a> vstd::std_specs::convert::FromSpecImpl<&'a str> for Identifier {
    open spec fn obeys_from_spec() -> bool {
        false
    }

    open spec fn from_spec(value: &'a str) -> Identifier {
        arbitrary()
    }
}

} // verus!
