//! Node identifiers from their parts.

use crate::byte_string::ByteString;
use crate::guid::Guid;
use crate::identifier::{Identifier, IdentifierModel};
use crate::node_id::{NodeId, NodeIdModel};
use crate::string::UAString;
use vstd::prelude::*;

verus! {

impl From<(u16, u32)> for NodeId {
    fn from(v: (u16, u32)) -> (id: NodeId) {
        NodeId { namespace: v.0, identifier: Identifier::Numeric(v.1) }
    }
}

impl vstd::std_specs::convert::FromSpecImpl<(u16, u32)> for NodeId {
    open spec fn obeys_from_spec() -> bool {
        true
    }

    open spec fn from_spec(v: (u16, u32)) -> NodeId {
        NodeId { namespace: v.0, identifier: Identifier::Numeric(v.1) }
    }
}

impl From<(u16, UAString)> for NodeId {
    fn from(v: (u16, UAString)) -> (id: NodeId) {
        NodeId { namespace: v.0, identifier: Identifier::String(v.1) }
    }
}

impl vstd::std_specs::convert::FromSpecImpl<(u16, UAString)> for NodeId {
    open spec fn obeys_from_spec() -> bool {
        true
    }

    open spec fn from_spec(v: (u16, UAString)) -> NodeId {
        NodeId { namespace: v.0, identifier: Identifier::String(v.1) }
    }
}

impl From<(u16, Guid)> for NodeId {
    fn from(v: (u16, Guid)) -> (id: NodeId) {
        NodeId { namespace: v.0, identifier: Identifier::Guid(v.1) }
    }
}

impl vstd::std_specs::convert::FromSpecImpl<(u16, Guid)> for NodeId {
    open spec fn obeys_from_spec() -> bool {
        true
    }

    open spec fn from_spec(v: (u16, Guid)) -> NodeId {
        NodeId { namespace: v.0, identifier: Identifier::Guid(v.1) }
    }
}

impl From<(u16, ByteString)> for NodeId {
    fn from(v: (u16, ByteString)) -> (id: NodeId) {
        NodeId { namespace: v.0, identifier: Identifier::ByteString(v.1) }
    }
}

impl vstd::std_specs::convert::FromSpecImpl<(u16, ByteString)> for NodeId {
    open spec fn obeys_from_spec() -> bool {
        true
    }

    open spec fn from_spec(v: (u16, ByteString)) -> NodeId {
        NodeId { namespace: v.0, identifier: Identifier::ByteString(v.1) }
    }
}

impl From<u32> for NodeId {
    fn from(value: u32) -> (id: NodeId) {
        NodeId { namespace: 0, identifier: Identifier::Numeric(value) }
    }
}

impl vstd::std_specs::convert::FromSpecImpl<u32> for NodeId {
    open spec fn obeys_from_spec() -> bool {
        true
    }

    open spec fn from_spec(value: u32) -> NodeId {
        NodeId { namespace: 0, identifier: Identifier::Numeric(value) }
    }
}

impl From<UAString> for NodeId {
    fn from(value: UAString) -> (id: NodeId) {
        NodeId { namespace: 0, identifier: Identifier::String(value) }
    }
}

impl vstd::std_specs::convert::FromSpecImpl<UAString> for NodeId {
    open spec fn obeys_from_spec() -> bool {
        true
    }

    open spec fn from_spec(value: UAString) -> NodeId {
        NodeId { namespace: 0, identifier: Identifier::String(value) }
    }
}

impl From<Guid> for NodeId {
    fn from(value: Guid) -> (id: NodeId) {
        NodeId { namespace: 0, identifier: Identifier::Guid(value) }
    }
}

impl vstd::std_specs::convert::FromSpecImpl<Guid> for NodeId {
    open spec fn obeys_from_spec() -> bool {
        true
    }

    open spec fn from_spec(value: Guid) -> NodeId {
        NodeId { namespace: 0, identifier: Identifier::Guid(value) }
    }
}

impl From<ByteString> for NodeId {
    fn from(value: ByteString) -> (id: NodeId) {
        NodeId { namespace: 0, identifier: Identifier::ByteString(value) }
    }
}

impl vstd::std_specs::convert::FromSpecImpl<ByteString> for NodeId {
    open spec fn obeys_from_spec() -> bool {
        true
    }

    open spec fn from_spec(value: ByteString) -> NodeId {
        NodeId { namespace: 0, identifier: Identifier::ByteString(value) }
    }
}

impl<'a> From<(u16, &'a str)> for NodeId {
    fn from(v: (u16, &'a str)) -> (id: NodeId)
        ensures
            id@ == (NodeIdModel {
                namespace: v.0,
                identifier: IdentifierModel::String(Some(v.1@)),
            }),
    {
        NodeId { namespace: v.0, identifier: Identifier::from(v.1) }
    }
}

impl<'a> vstd::std_specs::convert::FromSpecImpl<(u16, &'a str)> for NodeId {
    open spec fn obeys_from_spec() -> bool {
        false
    }

    open spec fn from_spec(v: (u16, &'a str)) -> NodeId {
        arbitrary()
    }
}

impl<'a> From<&'a str> for NodeId {
    fn from(value: &'a str) -> (id: NodeId)
        ensures
            id@ == (NodeIdModel {
                namespace: 0,
                identifier: IdentifierModel::String(Some(value@)),
            }),
    {
        NodeId { namespace: 0, identifier: Identifier::from(value) }
    }
}

impl<'a> vstd::std_specs::convert::FromSpecImpl<&'a str> for NodeId {
    open spec fn obeys_from_spec() -> bool {
        false
    }

    open spec fn from_spec(value: &'a str) -> NodeId {
        arbitrary()
    }
}

impl<'a> From<&'a NodeId> for NodeId {
    fn from(v: &'a NodeId) -> (id: NodeId)
        ensures
            id@ == v@,
    {
        v.clone()
    }
}

impl<'a> vstd::std_specs::convert::FromSpecImpl<&'a NodeId> for NodeId {
    open spec fn obeys_from_spec() -> bool {
        false
    }

    open spec fn from_spec(v: &'a NodeId) -> NodeId {
        *v
    }
}

} // verus!
