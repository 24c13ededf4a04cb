//! Node identifiers that borrow their text or bytes, for looking up a node
//! without making an owned identifier first.

use crate::byte_string::{bytes_equal, ByteString};
use crate::guid::Guid;
use crate::identifier::{Identifier, IdentifierModel};
use crate::node_id::{NodeId, NodeIdModel};
use crate::string::UAString;
use vstd::prelude::*;
use vstd::slice::slice_to_vec;
use vstd::std_specs::cmp::PartialEqSpec;
use vstd::utf8::encode_utf8_decode_utf8;

verus! {

/// An identifier that borrows what an `Identifier` owns.
#[derive(Clone, Copy, Debug, Hash, Ord)]
pub enum IdentifierRef<'a> {
    Numeric(u32),
    String(Option<&'a str>),
    Guid(&'a Guid),
    ByteString(Option<&'a [u8]>),
}

/// A node identifier that borrows what a `NodeId` owns.
#[derive(Clone, Copy, Debug, Hash, Ord)]
pub struct NodeIdRef<'a> {
    /// The index of the namespace.
    pub namespace: u16,
    /// The identifier of the node within the namespace.
    pub identifier: IdentifierRef<'a>,
}

impl<'a> View for IdentifierRef<'a> {
    type V = IdentifierModel;

    open spec fn view(&self) -> IdentifierModel {
        match self {
            IdentifierRef::Numeric(v) => IdentifierModel::Numeric(*v),
            IdentifierRef::String(v) => IdentifierModel::String(
                match v {
                    Some(s) => Some(s@),
                    None => None,
                },
            ),
            IdentifierRef::Guid(v) => IdentifierModel::Guid(v@),
            IdentifierRef::ByteString(v) => IdentifierModel::ByteString(
                match v {
                    Some(b) => Some(b@),
                    None => None,
                },
            ),
        }
    }
}

impl<'a> View for NodeIdRef<'a> {
    type V = NodeIdModel;

    open spec fn view(&self) -> NodeIdModel {
        NodeIdModel { namespace: self.namespace, identifier: self.identifier@ }
    }
}

/// Whether two texts hold the same characters.
pub fn text_equal(a: &str, b: &str) -> (r: bool)
    ensures
        r == (a@ == b@),
{
    proof {
        encode_utf8_decode_utf8(a@);
        encode_utf8_decode_utf8(b@);
    }
    bytes_equal(a.as_bytes(), b.as_bytes())
}

impl Identifier {
    /// The same identifier, borrowing from this one.
    pub fn as_identifier_ref(&self) -> (r: IdentifierRef<'_>)
        ensures
            r@ == self@,
    {
        match self {
            Identifier::Numeric(v) => IdentifierRef::Numeric(*v),
            Identifier::String(v) => IdentifierRef::String(
                match &v.value {
                    Some(s) => Some(s.as_str()),
                    None => None,
                },
            ),
            Identifier::Guid(v) => IdentifierRef::Guid(v),
            Identifier::ByteString(v) => IdentifierRef::ByteString(
                match &v.value {
                    Some(b) => Some(b.as_slice()),
                    None => None,
                },
            ),
        }
    }
}

impl NodeId {
    /// The same node identifier, borrowing from this one.
    pub fn as_node_id_ref(&self) -> (r: NodeIdRef<'_>)
        ensures
            r@ == self@,
    {
        NodeIdRef { namespace: self.namespace, identifier: self.identifier.as_identifier_ref() }
    }
}

impl<'a> IdentifierRef<'a> {
    /// The same identifier, owning a copy of what this one borrows.
    pub fn to_identifier(&self) -> (id: Identifier)
        ensures
            id@ == self@,
    {
        match self {
            IdentifierRef::Numeric(v) => Identifier::Numeric(*v),
            IdentifierRef::String(v) => Identifier::String(
                UAString {
                    value: match v {
                        Some(s) => Some((*s).to_owned()),
                        None => None,
                    },
                },
            ),
            IdentifierRef::Guid(v) => Identifier::Guid(**v),
            IdentifierRef::ByteString(v) => Identifier::ByteString(
                ByteString {
                    value: match v {
                        Some(b) => Some(slice_to_vec(b)),
                        None => None,
                    },
                },
            ),
        }
    }
}

impl<'a> NodeIdRef<'a> {
    /// The node identifier in `namespace` with the number `value`.
    pub fn numeric(namespace: u16, value: u32) -> (r: NodeIdRef<'a>)
        ensures
            r@ == (NodeIdModel { namespace, identifier: IdentifierModel::Numeric(value) }),
    {
        NodeIdRef { namespace, identifier: IdentifierRef::Numeric(value) }
    }

    /// The node identifier in `namespace` with the text `value`.
    pub fn string(namespace: u16, value: &'a str) -> (r: NodeIdRef<'a>)
        ensures
            r@ == (NodeIdModel { namespace, identifier: IdentifierModel::String(Some(value@)) }),
    {
        NodeIdRef { namespace, identifier: IdentifierRef::String(Some(value)) }
    }

    /// The node identifier in `namespace` with the guid `value`.
    pub fn guid(namespace: u16, value: &'a Guid) -> (r: NodeIdRef<'a>)
        ensures
            r@ == (NodeIdModel { namespace, identifier: IdentifierModel::Guid(value@) }),
    {
        NodeIdRef { namespace, identifier: IdentifierRef::Guid(value) }
    }

    /// The node identifier in `namespace` with the bytes `value`.
    pub fn byte_string(namespace: u16, value: &'a [u8]) -> (r: NodeIdRef<'a>)
        ensures
            r@ == (NodeIdModel {
                namespace,
                identifier: IdentifierModel::ByteString(Some(value@)),
            }),
    {
        NodeIdRef { namespace, identifier: IdentifierRef::ByteString(Some(value)) }
    }

    /// The same node identifier, owning a copy of what this one borrows.
    pub fn to_node_id(&self) -> (id: NodeId)
        ensures
            id@ == self@,
    {
        NodeId { namespace: self.namespace, identifier: self.identifier.to_identifier() }
    }
}

impl<'a, 'b> PartialEq<IdentifierRef<'b>> for IdentifierRef<'a> {
    fn eq(&self, other: &IdentifierRef<'b>) -> (r: bool) {
        match (self, other) {
            (IdentifierRef::Numeric(a), IdentifierRef::Numeric(b)) => *a == *b,
            (IdentifierRef::String(a), IdentifierRef::String(b)) => match (a, b) {
                (Some(x), Some(y)) => text_equal(x, y),
                (None, None) => true,
                _ => false,
            },
            (IdentifierRef::Guid(a), IdentifierRef::Guid(b)) => bytes_equal(
                a.bytes.as_slice(),
                b.bytes.as_slice(),
            ),
            (IdentifierRef::ByteString(a), IdentifierRef::ByteString(b)) => match (a, b) {
                (Some(x), Some(y)) => bytes_equal(x, y),
                (None, None) => true,
                _ => false,
            },
            _ => false,
        }
    }
}

impl<'a, 'b> vstd::std_specs::cmp::PartialEqSpecImpl<IdentifierRef<'b>> for IdentifierRef<'a> {
    open spec fn obeys_eq_spec() -> bool {
        true
    }

    open spec fn eq_spec(&self, other: &IdentifierRef<'b>) -> bool {
        self@ == other@
    }
}

impl<'a, 'b> PartialEq<NodeIdRef<'b>> for NodeIdRef<'a> {
    fn eq(&self, other: &NodeIdRef<'b>) -> (r: bool) {
        self.namespace == other.namespace && self.identifier == other.identifier
    }
}

impl<'a, 'b> vstd::std_specs::cmp::PartialEqSpecImpl<NodeIdRef<'b>> for NodeIdRef<'a> {
    open spec fn obeys_eq_spec() -> bool {
        true
    }

    open spec fn eq_spec(&self, other: &NodeIdRef<'b>) -> bool {
        self@ == other@
    }
}

impl<'a> Eq for IdentifierRef<'a> {

}

impl<'a> Eq for NodeIdRef<'a> {

}

impl<'a> PartialEq<NodeIdRef<'a>> for NodeId {
    fn eq(&self, other: &NodeIdRef<'a>) -> (r: bool) {
        self.as_node_id_ref() == *other
    }
}

impl<'a> vstd::std_specs::cmp::PartialEqSpecImpl<NodeIdRef<'a>> for NodeId {
    open spec fn obeys_eq_spec() -> bool {
        true
    }

    open spec fn eq_spec(&self, other: &NodeIdRef<'a>) -> bool {
        self@ == other@
    }
}

impl<'a> PartialEq<NodeId> for NodeIdRef<'a> {
    fn eq(&self, other: &NodeId) -> (r: bool) {
        *self == other.as_node_id_ref()
    }
}

impl<'a> vstd::std_specs::cmp::PartialEqSpecImpl<NodeId> for NodeIdRef<'a> {
    open spec fn obeys_eq_spec() -> bool {
        true
    }

    open spec fn eq_spec(&self, other: &NodeId) -> bool {
        self@ == other@
    }
}

/// An owned and a borrowing node identifier compare equal exactly where
/// they are the same value, whichever of the two stands on the left; so do
/// an owned one and the borrowing one made from it, always.
pub proof fn lemma_forms_compare_by_value(owned: NodeId, borrowed: NodeIdRef)
    ensures
        owned.eq_spec(&borrowed) <==> owned@ == borrowed@,
        borrowed.eq_spec(&owned) <==> owned@ == borrowed@,
        borrowed@ == owned@ ==> owned.eq_spec(&borrowed) && borrowed.eq_spec(&owned),
{
}

/// An owned node identifier with a text and a borrowing one that was made
/// from the same characters in the same namespace compare equal.
pub proof fn lemma_same_text_compares_equal(owned: NodeId, borrowed: NodeIdRef, text: &str)
    requires
        owned.identifier matches Identifier::String(s) && s@ == Some(text@),
        borrowed.identifier == IdentifierRef::String(Some(text)),
        owned.namespace == borrowed.namespace,
    ensures
        owned.eq_spec(&borrowed),
        borrowed.eq_spec(&owned),
{
}

} // verus!
