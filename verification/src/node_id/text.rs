//! The textual form of a node identifier.

use crate::base64::{base64_text, lemma_parse_base64_text, parse_base64};
use crate::chars::{chars_of, push_char};
use crate::decimal::{decimal_text, is_digit, lemma_decimal_text, parse_decimal};
use crate::decimal::{parse_decimal_range, push_decimal};
use crate::guid::{guid_text, lemma_parse_guid_text};
use crate::identifier::{identifier_text, parse_identifier, Identifier, IdentifierModel};
use crate::node_id::{NodeId, NodeIdModel};
use crate::status_code::StatusCode;
use vstd::prelude::*;

verus! {

/// The textual form of a node identifier: `ns=`, the namespace in decimal
/// and `;`, unless the namespace is 0, then the textual form of the
/// identifier.
pub open spec fn node_id_text(id: NodeIdModel) -> Seq<char> {
    if id.namespace != 0 {
        seq!['n', 's', '='] + decimal_text(id.namespace as nat) + seq![';'] + identifier_text(
            id.identifier,
        )
    } else {
        identifier_text(id.identifier)
    }
}

/// The first position from `i` on at which `s` has no digit: the end of the
/// digits that start at `i`.
pub open spec fn digits_end(s: Seq<char>, i: int) -> int
    decreases s.len() - i,
{
    if 0 <= i < s.len() && is_digit(s[i]) {
        digits_end(s, i + 1)
    } else {
        i
    }
}

/// Whether `s` holds no line feed.
pub open spec fn has_no_line_feed(s: Seq<char>) -> bool {
    forall|i: int| 0 <= i < s.len() ==> #[trigger] s[i] != '\n'
}

/// The node identifier in `namespace` that `s` denotes without a namespace
/// part: one of the letters `i`, `s`, `g`, `b`, then `=`, then at least one
/// character, none of them a line feed, which together denote an identifier.
pub open spec fn parse_in_namespace(s: Seq<char>, namespace: u16) -> Option<NodeIdModel> {
    if s.len() >= 3 && has_no_line_feed(s) {
        match parse_identifier(s) {
            Some(identifier) => Some(NodeIdModel { namespace, identifier }),
            None => None,
        }
    } else {
        None
    }
}

/// The node identifier that `s` denotes, where it denotes one. Where `s`
/// begins with `ns=`, one or more digits and `;` must follow, which give a
/// namespace of at most 65535; else the namespace is 0. The rest denotes the
/// identifier.
pub open spec fn parse_node_id(s: Seq<char>) -> Option<NodeIdModel> {
    if s.len() >= 3 && s[0] == 'n' && s[1] == 's' && s[2] == '=' {
        let end = digits_end(s, 3);
        if end < s.len() && s[end] == ';' {
            match parse_decimal(s.subrange(3, end), u16::MAX as nat) {
                Some(namespace) => parse_in_namespace(s.skip(end + 1), namespace as u16),
                None => None,
            }
        } else {
            None
        }
    } else {
        parse_in_namespace(s, 0)
    }
}

/// Whether a node identifier is one that a text can denote: its
/// identifier is a number, a guid, a text of at least one character and
/// without a line feed, or a sequence of at least one byte.
pub open spec fn has_text_form(id: NodeIdModel) -> bool {
    match id.identifier {
        IdentifierModel::Numeric(_) => true,
        IdentifierModel::String(text) => text matches Some(chars) && chars.len() >= 1
            && has_no_line_feed(chars),
        IdentifierModel::Guid(guid) => guid.len() == 16,
        IdentifierModel::ByteString(blob) => blob matches Some(bytes) && bytes.len() >= 1,
    }
}

/// Where digits stand from `i` up to `end` and no digit stands at `end`,
/// the digits that start at `i` end at `end`.
proof fn lemma_digits_end(s: Seq<char>, i: int, end: int)
    requires
        0 <= i <= end <= s.len(),
        forall|k: int| i <= k < end ==> is_digit(#[trigger] s[k]),
        end < s.len() ==> !is_digit(s[end]),
    ensures
        digits_end(s, i) == end,
    decreases end - i,
{
    if i < end {
        lemma_digits_end(s, i + 1, end);
    }
}

/// The digits that start at `i` are digits, and no digit stands where they
/// end.
proof fn lemma_digits_end_is_end(s: Seq<char>, i: int)
    requires
        0 <= i <= s.len(),
    ensures
        i <= digits_end(s, i) <= s.len(),
        forall|k: int| i <= k < digits_end(s, i) ==> is_digit(#[trigger] s[k]),
    decreases s.len() - i,
{
    if i < s.len() && is_digit(s[i]) {
        lemma_digits_end_is_end(s, i + 1);
    }
}

/// The textual form of an identifier that a text can denote is read back as
/// that identifier. It has three characters or more, none of them a line
/// feed, and the first is not `n`.
proof fn lemma_identifier_text_round_trip(id: NodeIdModel)
    requires
        has_text_form(id),
    ensures
        parse_identifier(identifier_text(id.identifier)) == Some(id.identifier),
        identifier_text(id.identifier).len() >= 3,
        has_no_line_feed(identifier_text(id.identifier)),
        identifier_text(id.identifier)[0] != 'n',
{
    let s = identifier_text(id.identifier);
    match id.identifier {
        IdentifierModel::Numeric(value) => {
            let digits = decimal_text(value as nat);
            lemma_decimal_text(value as nat);
            assert(s.skip(2) =~= digits);
            assert forall|i: int| 0 <= i < s.len() implies #[trigger] s[i] != '\n' by {
                if i >= 2 {
                    assert(is_digit(digits[i - 2]));
                }
            }
        },
        IdentifierModel::String(text) => {
            let chars = text->Some_0;
            assert(s.skip(2) =~= chars);
            assert forall|i: int| 0 <= i < s.len() implies #[trigger] s[i] != '\n' by {
                if i >= 2 {
                    assert(chars[i - 2] != '\n');
                }
            }
        },
        IdentifierModel::Guid(guid) => {
            lemma_parse_guid_text(guid);
            assert(s.skip(2) =~= guid_text(guid));
            assert forall|i: int| 0 <= i < s.len() implies #[trigger] s[i] != '\n' by {
                if i >= 2 {
                    assert(guid_text(guid)[i - 2] != '\n');
                }
            }
        },
        IdentifierModel::ByteString(blob) => {
            let bytes = blob->Some_0;
            lemma_parse_base64_text(bytes);
            assert(s.skip(2) =~= base64_text(bytes));
            assert forall|i: int| 0 <= i < s.len() implies #[trigger] s[i] != '\n' by {
                if i >= 2 {
                    assert(base64_text(bytes)[i - 2] != '\n');
                }
            }
        },
    }
}

/// Parsing the textual form of a node identifier gives the identifier back,
/// for each node identifier that a text can denote.
pub proof fn lemma_textual_round_trip(id: NodeId)
    requires
        has_text_form(id@),
    ensures
        parse_node_id(node_id_text(id@)) == Some(id@),
{
    lemma_model_textual_round_trip(id@);
}

/// The round trip through the textual form, of a mathematical value.
proof fn lemma_model_textual_round_trip(id: NodeIdModel)
    requires
        has_text_form(id),
    ensures
        parse_node_id(node_id_text(id)) == Some(id),
{
    let s = node_id_text(id);
    let typed = identifier_text(id.identifier);
    lemma_identifier_text_round_trip(id);
    if id.namespace != 0 {
        let digits = decimal_text(id.namespace as nat);
        lemma_decimal_text(id.namespace as nat);
        let end: int = 3 + digits.len() as int;
        assert forall|k: int| 3 <= k < end implies is_digit(#[trigger] s[k]) by {
            assert(s[k] == digits[k - 3]);
        }
        assert(s[end] == ';');
        lemma_digits_end(s, 3, end);
        assert(s.subrange(3, end) =~= digits);
        assert(s.skip(end + 1) =~= typed);
    } else {
        assert(s == typed);
    }
}

/// A sequence of bytes that one or more characters denote in base64 has
/// one or more bytes.
proof fn lemma_parse_base64_not_empty(s: Seq<char>)
    requires
        s.len() > 0,
        parse_base64(s) is Some,
    ensures
        parse_base64(s)->Some_0.len() > 0,
{
}

/// Every node identifier that a text denotes is one that a text can denote.
pub proof fn lemma_parsed_has_text_form(s: Seq<char>)
    requires
        parse_node_id(s) is Some,
    ensures
        has_text_form(parse_node_id(s)->Some_0),
{
    let typed = if s.len() >= 3 && s[0] == 'n' && s[1] == 's' && s[2] == '=' {
        s.skip(digits_end(s, 3) + 1)
    } else {
        s
    };
    lemma_digits_end_is_end(s, if s.len() >= 3 {
        3
    } else {
        0
    });
    let payload = typed.skip(2);
    assert(parse_identifier(typed) is Some);
    assert(typed.len() >= 3 && has_no_line_feed(typed));
    if typed[0] == 's' {
        assert forall|i: int| 0 <= i < payload.len() implies #[trigger] payload[i] != '\n' by {
            assert(payload[i] == typed[i + 2]);
        }
    } else if typed[0] == 'b' {
        lemma_parse_base64_not_empty(payload);
    }
}

/// A node identifier that a text denotes is written as a text that denotes
/// it again: parsing, writing and parsing once more gives what the first
/// parsing gave.
pub proof fn lemma_parsed_textual_round_trip(s: Seq<char>)
    requires
        parse_node_id(s) is Some,
    ensures
        parse_node_id(node_id_text(parse_node_id(s)->Some_0)) == parse_node_id(s),
{
    lemma_parsed_has_text_form(s);
    lemma_model_textual_round_trip(parse_node_id(s)->Some_0);
}

impl NodeId {
    /// The node identifier that `s` denotes, or the error where it denotes
    /// none.
    pub fn from_str(s: &str) -> (r: Result<NodeId, StatusCode>)
        ensures
            match r {
                Ok(id) => parse_node_id(s@) == Some(id@),
                Err(e) => e == StatusCode::BadNodeIdInvalid && parse_node_id(s@) is None,
            },
    {
        let chars = chars_of(s);
        let n = chars.len();
        let mut namespace: u16 = 0;
        let mut start: usize = 0;
        if n >= 3 && chars[0] == 'n' && chars[1] == 's' && chars[2] == '=' {
            let mut end: usize = 3;
            while end < n && is_digit_char(chars[end])
                invariant
                    3 <= end <= n == chars@.len(),
                    digits_end(chars@, 3) == digits_end(chars@, end as int),
                decreases n - end,
            {
                end += 1;
            }
            if end >= n || chars[end] != ';' {
                return Err(StatusCode::BadNodeIdInvalid);
            }
            match parse_decimal_range(chars.as_slice(), 3, end, 0xffff) {
                Some(ns) => {
                    namespace = ns as u16;
                },
                None => {
                    return Err(StatusCode::BadNodeIdInvalid);
                },
            }
            start = end + 1;
        } else {
            assert(chars@.skip(0) =~= chars@);
        }
        let ghost t = chars@.skip(start as int);
        assert(parse_node_id(s@) == parse_in_namespace(t, namespace));
        if n - start < 3 {
            return Err(StatusCode::BadNodeIdInvalid);
        }
        let mut i: usize = start;
        while i < n
            invariant
                start <= i <= n == chars@.len(),
                t == chars@.skip(start as int),
                parse_node_id(s@) == parse_in_namespace(t, namespace),
                has_no_line_feed(t.take(i - start)),
            decreases n - i,
        {
            if chars[i] == '\n' {
                assert(t[i - start] == '\n');
                return Err(StatusCode::BadNodeIdInvalid);
            }
            i += 1;
            assert forall|k: int| 0 <= k < i - start implies #[trigger] t.take(i - start)[k]
                != '\n' by {
                if k < i - start - 1 {
                    assert(t.take(i - start - 1)[k] != '\n');
                }
            }
        }
        assert(t.take(i - start) =~= t);
        match Identifier::parse_from(chars.as_slice(), start) {
            Some(identifier) => Ok(NodeId { namespace, identifier }),
            None => Err(StatusCode::BadNodeIdInvalid),
        }
    }

    /// Appends the textual form of the node identifier to `out`.
    pub fn push_text(&self, out: &mut String)
        ensures
            final(out)@ == old(out)@ + node_id_text(self@),
    {
        if self.namespace != 0 {
            push_char(out, 'n');
            push_char(out, 's');
            push_char(out, '=');
            push_decimal(out, self.namespace as u64);
            push_char(out, ';');
        }
        self.identifier.push_text(out);
        assert(out@ =~= old(out)@ + node_id_text(self@));
    }

    /// The textual form of the node identifier.
    pub fn to_string(&self) -> (s: String)
        ensures
            s@ == node_id_text(self@),
    {
        let mut out = String::new();
        self.push_text(&mut out);
        assert(Seq::<char>::empty() + node_id_text(self@) =~= node_id_text(self@));
        out
    }
}

/// Whether `c` is one of the digits `0` to `9`.
fn is_digit_char(c: char) -> (b: bool)
    ensures
        b == is_digit(c),
{
    '0' <= c && c <= '9'
}

impl std::str::FromStr for NodeId {
    type Err = StatusCode;

    /// The node identifier that `s` denotes, or the error where it denotes
    /// none.
    fn from_str(s: &str) -> (r: Result<NodeId, StatusCode>)
        ensures
            match r {
                Ok(id) => parse_node_id(s@) == Some(id@),
                Err(e) => e == StatusCode::BadNodeIdInvalid && parse_node_id(s@) is None,
            },
    {
        NodeId::from_str(s)
    }
}

impl From<NodeId> for String {
    /// The textual form of the node identifier.
    fn from(value: NodeId) -> (s: String)
        ensures
            s@ == node_id_text(value@),
    {
        value.to_string()
    }
}

impl vstd::std_specs::convert::FromSpecImpl<NodeId> for String {
    open spec fn obeys_from_spec() -> bool {
        false
    }

    open spec fn from_spec(value: NodeId) -> String {
        arbitrary()
    }
}

} // verus!
