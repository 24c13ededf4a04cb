//! The node identifier: a namespace index and an identifier.

pub mod binary;
pub mod convert;
pub mod text;
pub mod well_known;

use crate::identifier::{Identifier, IdentifierModel};
use std::sync::atomic::{AtomicU32, Ordering};
use vstd::prelude::*;
use vstd::std_specs::convert::IntoSpec;

verus! {

/// Why a node identifier is not the identifier of a well-known node.
#[derive(Clone, Copy, Debug, PartialEq, Eq, Structural)]
pub enum NodeIdErrorKind {
    /// It is the null node identifier, where that was asked about.
    Null,
    /// It is outside namespace 0, or no number, or a number that the
    /// enumeration does not hold.
    NotConvertible,
}

/// The error of a conversion that a node identifier does not allow.
#[derive(Clone, Copy, Debug, PartialEq, Eq, Structural)]
pub struct NodeIdError {
    pub kind: NodeIdErrorKind,
}

impl NodeIdError {
    /// The name of the error.
    pub fn to_string(&self) -> (s: String)
        ensures
            s@ == "NodeIdError"@,
    {
        "NodeIdError".to_owned()
    }
}

/// The identifier of a node in the address space of a server.
#[derive(Debug, Hash, Ord)]
pub struct NodeId {
    /// The index of the namespace.
    pub namespace: u16,
    /// The identifier of the node within the namespace.
    pub identifier: Identifier,
}

/// A node identifier as a mathematical value.
pub ghost struct NodeIdModel {
    pub namespace: u16,
    pub identifier: IdentifierModel,
}

impl View for NodeId {
    type V = NodeIdModel;

    open spec fn view(&self) -> NodeIdModel {
        NodeIdModel { namespace: self.namespace, identifier: self.identifier@ }
    }
}

/// The null node identifier: the number 0 in namespace 0.
pub open spec fn null_node_id() -> NodeIdModel {
    NodeIdModel { namespace: 0, identifier: IdentifierModel::Numeric(0) }
}

impl NodeId {
    /// The node identifier in `namespace` with the identifier that `value`
    /// converts to.
    pub fn new<T>(namespace: u16, value: T) -> (id: NodeId) where T: Into<Identifier>
        ensures
            id.namespace == namespace,
            T::obeys_into_spec() ==> id.identifier == value.into_spec(),
            call_ensures(T::into, (value,), id.identifier),
    {
        NodeId { namespace, identifier: value.into() }
    }

    /// Whether this is the null node identifier: the number 0 in namespace 0.
    pub fn is_null(&self) -> (b: bool)
        ensures
            b == (self@ == null_node_id()),
    {
        match self.identifier {
            Identifier::Numeric(value) => self.namespace == 0 && value == 0,
            _ => false,
        }
    }

    /// The null node identifier.
    pub fn null() -> (id: NodeId)
        ensures
            id@ == null_node_id(),
    {
        NodeId { namespace: 0, identifier: Identifier::Numeric(0) }
    }

    /// The node identifier in `namespace` whose number is the value that
    /// `counter` held, which is advanced by one; after 4294967295 comes 0.
    /// Nothing is known here of the number itself: other holders of the
    /// counter may advance it at any moment.
    pub fn next_numeric(namespace: u16, counter: &AtomicU32) -> (id: NodeId)
        ensures
            id.namespace == namespace,
            id@.identifier is Numeric,
    {
        NodeId { namespace, identifier: Identifier::Numeric(counter.fetch_add(1, Ordering::SeqCst)) }
    }

    /// Whether the identifier is a number.
    pub fn is_numeric(&self) -> (b: bool)
        ensures
            b == (self@.identifier is Numeric),
    {
        self.identifier.is_numeric()
    }

    /// Whether the identifier is a text.
    pub fn is_string(&self) -> (b: bool)
        ensures
            b == (self@.identifier is String),
    {
        self.identifier.is_string()
    }

    /// Whether the identifier is a guid.
    pub fn is_guid(&self) -> (b: bool)
        ensures
            b == (self@.identifier is Guid),
    {
        self.identifier.is_guid()
    }

    /// Whether the identifier is a sequence of bytes.
    pub fn is_byte_string(&self) -> (b: bool)
        ensures
            b == (self@.identifier is ByteString),
    {
        self.identifier.is_byte_string()
    }

    /// The number, where the identifier is one.
    pub fn as_u32(&self) -> (r: Option<u32>)
        ensures
            r == match self@.identifier {
                IdentifierModel::Numeric(v) => Some(v),
                _ => None,
            },
    {
        self.identifier.as_u32()
    }
}

impl Clone for NodeId {
    fn clone(&self) -> (copy: NodeId)
        ensures
            copy@ == self@,
    {
        NodeId { namespace: self.namespace, identifier: self.identifier.clone() }
    }
}

impl PartialEq for NodeId {
    fn eq(&self, other: &NodeId) -> (r: bool) {
        self.namespace == other.namespace && self.identifier == other.identifier
    }
}

impl Eq for NodeId {

}

impl vstd::std_specs::cmp::PartialEqSpecImpl for NodeId {
    open spec fn obeys_eq_spec() -> bool {
        true
    }

    open spec fn eq_spec(&self, other: &NodeId) -> bool {
        self@ == other@
    }
}

impl Default for NodeId {
    /// The null node identifier.
    fn default() -> (id: NodeId)
        ensures
            id@ == null_node_id(),
    {
        NodeId::null()
    }
}

} // verus!
