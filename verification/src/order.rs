//! The total order of node identifiers, for their use as keys of sorted
//! collections: by namespace; within a namespace numbers before texts,
//! texts before guids, guids before sequences of bytes; within a kind by
//! value. Numbers are ordered by size. Sequences of bytes are ordered as
//! words in a dictionary, and so are guids, by their bytes, and texts, by
//! their UTF-8 bytes. An absent text or sequence of bytes comes before
//! every present one.

use crate::byte_string::ByteString;
use crate::guid::Guid;
use crate::id_ref::{IdentifierRef, NodeIdRef};
use crate::identifier::{Identifier, IdentifierModel};
use crate::node_id::{NodeId, NodeIdModel};
use crate::string::UAString;
use std::cmp::Ordering;
use vstd::prelude::*;
use vstd::utf8::{encode_utf8, encode_utf8_decode_utf8};

verus! {

/// How a value stands to another one in an order.
#[derive(Clone, Copy, Debug, PartialEq, Eq, Structural)]
pub enum Order {
    Less,
    Equal,
    Greater,
}

/// Whether `a` comes before `b` as words come in a dictionary: at the first
/// position where they differ `a` has the smaller byte, or `a` ends there
/// and `b` does not.
pub open spec fn bytes_lt(a: Seq<u8>, b: Seq<u8>) -> bool
    decreases a.len(),
{
    if b.len() == 0 {
        false
    } else if a.len() == 0 {
        true
    } else if a[0] != b[0] {
        a[0] < b[0]
    } else {
        bytes_lt(a.skip(1), b.skip(1))
    }
}

/// Whether `a` comes before `b`, where either may be absent: an absent
/// sequence comes before every present one.
pub open spec fn optional_bytes_lt(a: Option<Seq<u8>>, b: Option<Seq<u8>>) -> bool {
    match (a, b) {
        (None, Some(_)) => true,
        (Some(x), Some(y)) => bytes_lt(x, y),
        _ => false,
    }
}

/// The UTF-8 bytes of a text that may be absent.
pub open spec fn text_bytes(text: Option<Seq<char>>) -> Option<Seq<u8>> {
    match text {
        Some(chars) => Some(encode_utf8(chars)),
        None => None,
    }
}

/// The place of the kind of an identifier among the kinds.
pub open spec fn identifier_rank(id: IdentifierModel) -> int {
    match id {
        IdentifierModel::Numeric(_) => 0,
        IdentifierModel::String(_) => 1,
        IdentifierModel::Guid(_) => 2,
        IdentifierModel::ByteString(_) => 3,
    }
}

/// Whether the identifier `a` comes before `b`: by kind first, then by
/// value.
pub open spec fn identifier_lt(a: IdentifierModel, b: IdentifierModel) -> bool {
    match (a, b) {
        (IdentifierModel::Numeric(x), IdentifierModel::Numeric(y)) => x < y,
        (IdentifierModel::String(x), IdentifierModel::String(y)) => optional_bytes_lt(
            text_bytes(x),
            text_bytes(y),
        ),
        (IdentifierModel::Guid(x), IdentifierModel::Guid(y)) => bytes_lt(x, y),
        (IdentifierModel::ByteString(x), IdentifierModel::ByteString(y)) => optional_bytes_lt(
            x,
            y,
        ),
        _ => identifier_rank(a) < identifier_rank(b),
    }
}

/// Whether the node identifier `a` comes before `b`: by namespace first,
/// then by identifier.
pub open spec fn node_id_lt(a: NodeIdModel, b: NodeIdModel) -> bool {
    a.namespace < b.namespace || (a.namespace == b.namespace && identifier_lt(
        a.identifier,
        b.identifier,
    ))
}

/// How the sequence `a` stands to `b`.
pub open spec fn bytes_order(a: Seq<u8>, b: Seq<u8>) -> Order {
    if a == b {
        Order::Equal
    } else if bytes_lt(a, b) {
        Order::Less
    } else {
        Order::Greater
    }
}

/// How the identifier `a` stands to `b`.
pub open spec fn identifier_order(a: IdentifierModel, b: IdentifierModel) -> Order {
    if a == b {
        Order::Equal
    } else if identifier_lt(a, b) {
        Order::Less
    } else {
        Order::Greater
    }
}

/// How the node identifier `a` stands to `b`.
pub open spec fn node_id_order(a: NodeIdModel, b: NodeIdModel) -> Order {
    if a == b {
        Order::Equal
    } else if node_id_lt(a, b) {
        Order::Less
    } else {
        Order::Greater
    }
}

/// The same standing, as the standard library writes it.
pub open spec fn standing(order: Order) -> Ordering {
    match order {
        Order::Less => Ordering::Less,
        Order::Equal => Ordering::Equal,
        Order::Greater => Ordering::Greater,
    }
}

/// Of two sequences of bytes exactly one thing holds: the first comes
/// before the second, they are the same, or the second comes before the
/// first.
pub proof fn lemma_bytes_lt_total(a: Seq<u8>, b: Seq<u8>)
    ensures
        bytes_lt(a, b) || a == b || bytes_lt(b, a),
        !(bytes_lt(a, b) && bytes_lt(b, a)),
        !(bytes_lt(a, b) && a == b),
    decreases a.len(),
{
    if a.len() == 0 || b.len() == 0 {
        if a.len() == 0 && b.len() == 0 {
            assert(a =~= b);
        }
    } else if a[0] == b[0] {
        lemma_bytes_lt_total(a.skip(1), b.skip(1));
        if a.skip(1) == b.skip(1) {
            assert(a =~= seq![a[0]] + a.skip(1));
            assert(b =~= seq![b[0]] + b.skip(1));
        }
        if a == b {
            assert(a.skip(1) == b.skip(1));
        }
    }
}

/// What comes before a sequence of bytes that comes before a third comes
/// before the third.
pub proof fn lemma_bytes_lt_transitive(a: Seq<u8>, b: Seq<u8>, c: Seq<u8>)
    requires
        bytes_lt(a, b),
        bytes_lt(b, c),
    ensures
        bytes_lt(a, c),
    decreases a.len(),
{
    if a.len() > 0 && a[0] == b[0] && b[0] == c[0] {
        lemma_bytes_lt_transitive(a.skip(1), b.skip(1), c.skip(1));
    }
}

/// Two texts with the same UTF-8 bytes are the same text.
pub proof fn lemma_text_bytes_injective(a: Option<Seq<char>>, b: Option<Seq<char>>)
    requires
        text_bytes(a) == text_bytes(b),
    ensures
        a == b,
{
    if a is Some && b is Some {
        encode_utf8_decode_utf8(a->Some_0);
        encode_utf8_decode_utf8(b->Some_0);
    }
}

/// The order of node identifiers is total: of two node identifiers exactly
/// one thing holds, the first comes before the second, they are the same,
/// or the second comes before the first.
pub proof fn lemma_order_is_total(a: NodeId, b: NodeId)
    ensures
        node_id_lt(a@, b@) || a@ == b@ || node_id_lt(b@, a@),
        !(node_id_lt(a@, b@) && node_id_lt(b@, a@)),
        !(node_id_lt(a@, b@) && a@ == b@),
{
    lemma_model_order_is_total(a@, b@);
}

/// The totality of the order, of mathematical values.
pub proof fn lemma_model_order_is_total(a: NodeIdModel, b: NodeIdModel)
    ensures
        node_id_lt(a, b) || a == b || node_id_lt(b, a),
        !(node_id_lt(a, b) && node_id_lt(b, a)),
        !(node_id_lt(a, b) && a == b),
{
    match (a.identifier, b.identifier) {
        (IdentifierModel::String(x), IdentifierModel::String(y)) => {
            if x is Some && y is Some {
                lemma_bytes_lt_total(encode_utf8(x->Some_0), encode_utf8(y->Some_0));
                if text_bytes(x) == text_bytes(y) {
                    lemma_text_bytes_injective(x, y);
                }
            }
        },
        (IdentifierModel::Guid(x), IdentifierModel::Guid(y)) => {
            lemma_bytes_lt_total(x, y);
        },
        (IdentifierModel::ByteString(x), IdentifierModel::ByteString(y)) => {
            if x is Some && y is Some {
                lemma_bytes_lt_total(x->Some_0, y->Some_0);
            }
        },
        _ => {},
    }
}

/// The order of node identifiers is transitive: what comes before a node
/// identifier that comes before a third comes before the third.
pub proof fn lemma_order_is_transitive(a: NodeId, b: NodeId, c: NodeId)
    requires
        node_id_lt(a@, b@),
        node_id_lt(b@, c@),
    ensures
        node_id_lt(a@, c@),
{
    lemma_model_order_is_transitive(a@, b@, c@);
}

/// The transitivity of the order, of mathematical values.
pub proof fn lemma_model_order_is_transitive(a: NodeIdModel, b: NodeIdModel, c: NodeIdModel)
    requires
        node_id_lt(a, b),
        node_id_lt(b, c),
    ensures
        node_id_lt(a, c),
{
    if a.namespace == b.namespace && b.namespace == c.namespace {
        match (a.identifier, b.identifier, c.identifier) {
            (
                IdentifierModel::String(Some(x)),
                IdentifierModel::String(Some(y)),
                IdentifierModel::String(Some(z)),
            ) => {
                lemma_bytes_lt_transitive(encode_utf8(x), encode_utf8(y), encode_utf8(z));
            },
            (IdentifierModel::Guid(x), IdentifierModel::Guid(y), IdentifierModel::Guid(z)) => {
                lemma_bytes_lt_transitive(x, y, z);
            },
            (
                IdentifierModel::ByteString(Some(x)),
                IdentifierModel::ByteString(Some(y)),
                IdentifierModel::ByteString(Some(z)),
            ) => {
                lemma_bytes_lt_transitive(x, y, z);
            },
            _ => {},
        }
    }
}

/// How the bytes `a` stand to the bytes `b`.
pub fn compare_bytes(a: &[u8], b: &[u8]) -> (r: Order)
    ensures
        r == bytes_order(a@, b@),
{
    let mut i: usize = 0;
    assert(a@.skip(0) =~= a@ && b@.skip(0) =~= b@);
    while i < a.len() && i < b.len()
        invariant
            i <= a@.len(),
            i <= b@.len(),
            forall|k: int| 0 <= k < i ==> a@[k] == b@[k],
            bytes_lt(a@, b@) == bytes_lt(a@.skip(i as int), b@.skip(i as int)),
            bytes_lt(b@, a@) == bytes_lt(b@.skip(i as int), a@.skip(i as int)),
        decreases a@.len() - i,
    {
        let ghost ra = a@.skip(i as int);
        let ghost rb = b@.skip(i as int);
        assert(ra[0] == a@[i as int] && rb[0] == b@[i as int]);
        if a[i] != b[i] {
            if a[i] < b[i] {
                return Order::Less;
            } else {
                return Order::Greater;
            }
        }
        assert(ra.skip(1) =~= a@.skip(i + 1) && rb.skip(1) =~= b@.skip(i + 1));
        i += 1;
    }
    if a.len() == b.len() {
        assert(a@ =~= b@);
        Order::Equal
    } else if a.len() < b.len() {
        Order::Less
    } else {
        Order::Greater
    }
}

/// How the bytes `a` stand to the bytes `b`, where either may be absent.
pub fn compare_optional_bytes(a: Option<&[u8]>, b: Option<&[u8]>) -> (r: Order)
    ensures
        r == if a is None && b is None {
            Order::Equal
        } else if a is None {
            Order::Less
        } else if b is None {
            Order::Greater
        } else {
            bytes_order(a->Some_0@, b->Some_0@)
        },
{
    match (a, b) {
        (None, None) => Order::Equal,
        (None, Some(_)) => Order::Less,
        (Some(_), None) => Order::Greater,
        (Some(x), Some(y)) => compare_bytes(x, y),
    }
}

/// How the identifier `a` stands to `b`.
pub fn compare_identifiers(a: &IdentifierRef, b: &IdentifierRef) -> (r: Order)
    ensures
        r == identifier_order(a@, b@),
{
    match (a, b) {
        (IdentifierRef::Numeric(x), IdentifierRef::Numeric(y)) => {
            if *x < *y {
                Order::Less
            } else if *x == *y {
                Order::Equal
            } else {
                Order::Greater
            }
        },
        (IdentifierRef::String(x), IdentifierRef::String(y)) => {
            proof {
                let tx = a@->String_0;
                let ty = b@->String_0;
                if text_bytes(tx) == text_bytes(ty) {
                    lemma_text_bytes_injective(tx, ty);
                }
            }
            match (x, y) {
                (None, None) => Order::Equal,
                (None, Some(_)) => Order::Less,
                (Some(_), None) => Order::Greater,
                (Some(s), Some(t)) => compare_bytes(s.as_bytes(), t.as_bytes()),
            }
        },
        (IdentifierRef::Guid(x), IdentifierRef::Guid(y)) => compare_bytes(
            x.bytes.as_slice(),
            y.bytes.as_slice(),
        ),
        (IdentifierRef::ByteString(x), IdentifierRef::ByteString(y)) => compare_optional_bytes(
            *x,
            *y,
        ),
        (IdentifierRef::Numeric(_), _) => Order::Less,
        (_, IdentifierRef::Numeric(_)) => Order::Greater,
        (IdentifierRef::String(_), _) => Order::Less,
        (_, IdentifierRef::String(_)) => Order::Greater,
        (IdentifierRef::Guid(_), _) => Order::Less,
        (_, IdentifierRef::Guid(_)) => Order::Greater,
    }
}

/// How the node identifier `a` stands to `b`.
pub fn compare_node_ids(a: &NodeIdRef, b: &NodeIdRef) -> (r: Order)
    ensures
        r == node_id_order(a@, b@),
{
    if a.namespace < b.namespace {
        Order::Less
    } else if a.namespace > b.namespace {
        Order::Greater
    } else {
        compare_identifiers(&a.identifier, &b.identifier)
    }
}

/// The same standing, as the standard library writes it.
pub fn standing_of(order: Order) -> (r: Ordering)
    ensures
        r == standing(order),
{
    match order {
        Order::Less => Ordering::Less,
        Order::Equal => Ordering::Equal,
        Order::Greater => Ordering::Greater,
    }
}

impl PartialOrd for Guid {
    fn partial_cmp(&self, other: &Guid) -> (r: Option<Ordering>) {
        Some(standing_of(compare_bytes(self.bytes.as_slice(), other.bytes.as_slice())))
    }
}

impl vstd::std_specs::cmp::PartialOrdSpecImpl for Guid {
    open spec fn obeys_partial_cmp_spec() -> bool {
        true
    }

    open spec fn partial_cmp_spec(&self, other: &Guid) -> Option<Ordering> {
        Some(standing(bytes_order(self@, other@)))
    }
}

impl PartialOrd for ByteString {
    fn partial_cmp(&self, other: &ByteString) -> (r: Option<Ordering>) {
        Some(
            standing_of(
                compare_identifiers(
                    &IdentifierRef::ByteString(
                        match &self.value {
                            Some(v) => Some(v.as_slice()),
                            None => None,
                        },
                    ),
                    &IdentifierRef::ByteString(
                        match &other.value {
                            Some(v) => Some(v.as_slice()),
                            None => None,
                        },
                    ),
                ),
            ),
        )
    }
}

impl vstd::std_specs::cmp::PartialOrdSpecImpl for ByteString {
    open spec fn obeys_partial_cmp_spec() -> bool {
        true
    }

    open spec fn partial_cmp_spec(&self, other: &ByteString) -> Option<Ordering> {
        Some(
            standing(
                identifier_order(
                    IdentifierModel::ByteString(self@),
                    IdentifierModel::ByteString(other@),
                ),
            ),
        )
    }
}

impl PartialOrd for UAString {
    fn partial_cmp(&self, other: &UAString) -> (r: Option<Ordering>) {
        Some(
            standing_of(
                compare_identifiers(
                    &IdentifierRef::String(
                        match &self.value {
                            Some(s) => Some(s.as_str()),
                            None => None,
                        },
                    ),
                    &IdentifierRef::String(
                        match &other.value {
                            Some(s) => Some(s.as_str()),
                            None => None,
                        },
                    ),
                ),
            ),
        )
    }
}

impl vstd::std_specs::cmp::PartialOrdSpecImpl for UAString {
    open spec fn obeys_partial_cmp_spec() -> bool {
        true
    }

    open spec fn partial_cmp_spec(&self, other: &UAString) -> Option<Ordering> {
        Some(
            standing(
                identifier_order(IdentifierModel::String(self@), IdentifierModel::String(other@)),
            ),
        )
    }
}

impl<'a> PartialOrd for NodeIdRef<'a> {
    fn partial_cmp(&self, other: &NodeIdRef<'a>) -> (r: Option<Ordering>) {
        Some(standing_of(compare_node_ids(self, other)))
    }
}

impl<'a> vstd::std_specs::cmp::PartialOrdSpecImpl for NodeIdRef<'a> {
    open spec fn obeys_partial_cmp_spec() -> bool {
        true
    }

    open spec fn partial_cmp_spec(&self, other: &NodeIdRef<'a>) -> Option<Ordering> {
        Some(standing(node_id_order(self@, other@)))
    }
}

impl<'a> PartialOrd for IdentifierRef<'a> {
    fn partial_cmp(&self, other: &IdentifierRef<'a>) -> (r: Option<Ordering>) {
        Some(standing_of(compare_identifiers(self, other)))
    }
}

impl<'a> vstd::std_specs::cmp::PartialOrdSpecImpl for IdentifierRef<'a> {
    open spec fn obeys_partial_cmp_spec() -> bool {
        true
    }

    open spec fn partial_cmp_spec(&self, other: &IdentifierRef<'a>) -> Option<Ordering> {
        Some(standing(identifier_order(self@, other@)))
    }
}

impl PartialOrd for NodeId {
    fn partial_cmp(&self, other: &NodeId) -> (r: Option<Ordering>) {
        Some(standing_of(compare_node_ids(&self.as_node_id_ref(), &other.as_node_id_ref())))
    }
}

impl vstd::std_specs::cmp::PartialOrdSpecImpl for NodeId {
    open spec fn obeys_partial_cmp_spec() -> bool {
        true
    }

    open spec fn partial_cmp_spec(&self, other: &NodeId) -> Option<Ordering> {
        Some(standing(node_id_order(self@, other@)))
    }
}

impl PartialOrd for Identifier {
    fn partial_cmp(&self, other: &Identifier) -> (r: Option<Ordering>) {
        Some(
            standing_of(
                compare_identifiers(&self.as_identifier_ref(), &other.as_identifier_ref()),
            ),
        )
    }
}

impl vstd::std_specs::cmp::PartialOrdSpecImpl for Identifier {
    open spec fn obeys_partial_cmp_spec() -> bool {
        true
    }

    open spec fn partial_cmp_spec(&self, other: &Identifier) -> Option<Ordering> {
        Some(standing(identifier_order(self@, other@)))
    }
}

} // verus!
