//! Node identifiers of the well-known nodes of namespace 0.

use crate::identifier::{Identifier, IdentifierModel};
use crate::node_id::{null_node_id, NodeId, NodeIdError, NodeIdErrorKind, NodeIdModel};
use crate::node_ids::{DataTypeId, MethodId, ObjectId, ReferenceTypeId, VariableId};
use vstd::prelude::*;

verus! {

/// The error of a node identifier that an enumeration does not hold.
pub open spec fn not_convertible() -> NodeIdError {
    NodeIdError { kind: NodeIdErrorKind::NotConvertible }
}

/// The number to look up in an enumeration of well-known nodes: the number
/// of a node identifier in namespace 0, and nothing for any other node
/// identifier.
pub open spec fn well_known_number(id: NodeIdModel) -> Option<u32> {
    match id.identifier {
        IdentifierModel::Numeric(value) if id.namespace == 0 => Some(value),
        _ => None,
    }
}

/// The member of an enumeration of well-known nodes that a node identifier
/// names, where `of_value` gives the member for a number: the member for the
/// number of a node identifier in namespace 0, and an error for a node
/// identifier that is outside namespace 0 or no number, or whose number has
/// no member.
pub open spec fn well_known_member<T>(
    id: NodeIdModel,
    of_value: spec_fn(u32) -> Option<T>,
) -> Result<T, NodeIdError> {
    match well_known_number(id) {
        Some(value) => match of_value(value) {
            Some(member) => Ok(member),
            None => Err(not_convertible()),
        },
        None => Err(not_convertible()),
    }
}

/// The number of a member of an enumeration names that member in namespace
/// 0, and names no member in any other namespace.
pub proof fn lemma_conversion_boundary<T>(
    value: u32,
    namespace: u16,
    member: T,
    of_value: spec_fn(u32) -> Option<T>,
)
    requires
        of_value(value) == Some(member),
    ensures
        well_known_member(well_known(value), of_value) == Ok::<T, NodeIdError>(member),
        namespace != 0 ==> well_known_member(
            NodeIdModel { namespace, identifier: IdentifierModel::Numeric(value) },
            of_value,
        ) == Err::<T, NodeIdError>(not_convertible()),
{
}

/// The node identifier of the well-known node with the number `value`: that
/// number in namespace 0.
pub open spec fn well_known(value: u32) -> NodeIdModel {
    NodeIdModel { namespace: 0, identifier: IdentifierModel::Numeric(value) }
}

impl NodeId {
    /// The node identifier of the root folder.
    pub fn root_folder_id() -> (id: NodeId)
        ensures
            id@ == well_known(ObjectId::RootFolder.value()),
    {
        NodeId::from(ObjectId::RootFolder)
    }

    /// The node identifier of the objects folder.
    pub fn objects_folder_id() -> (id: NodeId)
        ensures
            id@ == well_known(ObjectId::ObjectsFolder.value()),
    {
        NodeId::from(ObjectId::ObjectsFolder)
    }

    /// The node identifier of the types folder.
    pub fn types_folder_id() -> (id: NodeId)
        ensures
            id@ == well_known(ObjectId::TypesFolder.value()),
    {
        NodeId::from(ObjectId::TypesFolder)
    }

    /// The node identifier of the views folder.
    pub fn views_folder_id() -> (id: NodeId)
        ensures
            id@ == well_known(ObjectId::ViewsFolder.value()),
    {
        NodeId::from(ObjectId::ViewsFolder)
    }

    /// The well-known object that the node identifier names: where it is a
    /// number in namespace 0 and the enumeration holds that number.
    pub fn as_object_id(&self) -> (r: Result<ObjectId, NodeIdError>)
        ensures
            r == well_known_member(self@, |value: u32| ObjectId::of_value(value)),
    {
        match self.identifier {
            Identifier::Numeric(id) if self.namespace == 0 => match ObjectId::try_from(id) {
                Ok(member) => Ok(member),
                Err(_) => Err(NodeIdError { kind: NodeIdErrorKind::NotConvertible }),
            },
            _ => Err(NodeIdError { kind: NodeIdErrorKind::NotConvertible }),
        }
    }

    /// The well-known variable that the node identifier names: where it is a
    /// number in namespace 0 and the enumeration holds that number.
    pub fn as_variable_id(&self) -> (r: Result<VariableId, NodeIdError>)
        ensures
            r == well_known_member(self@, |value: u32| VariableId::of_value(value)),
    {
        match self.identifier {
            Identifier::Numeric(id) if self.namespace == 0 => match VariableId::try_from(id) {
                Ok(member) => Ok(member),
                Err(_) => Err(NodeIdError { kind: NodeIdErrorKind::NotConvertible }),
            },
            _ => Err(NodeIdError { kind: NodeIdErrorKind::NotConvertible }),
        }
    }

    /// The well-known data type that the node identifier names: where it is a
    /// number in namespace 0 and the enumeration holds that number.
    pub fn as_data_type_id(&self) -> (r: Result<DataTypeId, NodeIdError>)
        ensures
            r == well_known_member(self@, |value: u32| DataTypeId::of_value(value)),
    {
        match self.identifier {
            Identifier::Numeric(id) if self.namespace == 0 => match DataTypeId::try_from(id) {
                Ok(member) => Ok(member),
                Err(_) => Err(NodeIdError { kind: NodeIdErrorKind::NotConvertible }),
            },
            _ => Err(NodeIdError { kind: NodeIdErrorKind::NotConvertible }),
        }
    }

    /// The well-known method that the node identifier names: where it is a
    /// number in namespace 0 and the enumeration holds that number.
    pub fn as_method_id(&self) -> (r: Result<MethodId, NodeIdError>)
        ensures
            r == well_known_member(self@, |value: u32| MethodId::of_value(value)),
    {
        match self.identifier {
            Identifier::Numeric(id) if self.namespace == 0 => match MethodId::try_from(id) {
                Ok(member) => Ok(member),
                Err(_) => Err(NodeIdError { kind: NodeIdErrorKind::NotConvertible }),
            },
            _ => Err(NodeIdError { kind: NodeIdErrorKind::NotConvertible }),
        }
    }

    /// The well-known reference type that the node identifier names: where
    /// it is a number in namespace 0 and the enumeration holds that number.
    /// The null node identifier names none and is told apart from the others
    /// that name none.
    pub fn as_reference_type_id(&self) -> (r: Result<ReferenceTypeId, NodeIdError>)
        ensures
            r == if self@ == null_node_id() {
                Err::<ReferenceTypeId, NodeIdError>(NodeIdError { kind: NodeIdErrorKind::Null })
            } else {
                well_known_member(self@, |value: u32| ReferenceTypeId::of_value(value))
            },
    {
        if self.is_null() {
            Err(NodeIdError { kind: NodeIdErrorKind::Null })
        } else {
            match self.identifier {
                Identifier::Numeric(id) if self.namespace == 0 => match ReferenceTypeId::try_from(
                    id,
                ) {
                    Ok(member) => Ok(member),
                    Err(_) => Err(NodeIdError { kind: NodeIdErrorKind::NotConvertible }),
                },
                _ => Err(NodeIdError { kind: NodeIdErrorKind::NotConvertible }),
            }
        }
    }
}

impl From<ObjectId> for NodeId {
    /// The node identifier of a well-known node: its number in namespace 0.
    fn from(member: ObjectId) -> (id: NodeId) {
        NodeId { namespace: 0, identifier: Identifier::Numeric(member.as_u32()) }
    }
}

impl vstd::std_specs::convert::FromSpecImpl<ObjectId> for NodeId {
    open spec fn obeys_from_spec() -> bool {
        true
    }

    open spec fn from_spec(member: ObjectId) -> NodeId {
        NodeId { namespace: 0, identifier: Identifier::Numeric(member.value()) }
    }
}

impl From<VariableId> for NodeId {
    /// The node identifier of a well-known node: its number in namespace 0.
    fn from(member: VariableId) -> (id: NodeId) {
        NodeId { namespace: 0, identifier: Identifier::Numeric(member.as_u32()) }
    }
}

impl vstd::std_specs::convert::FromSpecImpl<VariableId> for NodeId {
    open spec fn obeys_from_spec() -> bool {
        true
    }

    open spec fn from_spec(member: VariableId) -> NodeId {
        NodeId { namespace: 0, identifier: Identifier::Numeric(member.value()) }
    }
}

impl From<ReferenceTypeId> for NodeId {
    /// The node identifier of a well-known node: its number in namespace 0.
    fn from(member: ReferenceTypeId) -> (id: NodeId) {
        NodeId { namespace: 0, identifier: Identifier::Numeric(member.as_u32()) }
    }
}

impl vstd::std_specs::convert::FromSpecImpl<ReferenceTypeId> for NodeId {
    open spec fn obeys_from_spec() -> bool {
        true
    }

    open spec fn from_spec(member: ReferenceTypeId) -> NodeId {
        NodeId { namespace: 0, identifier: Identifier::Numeric(member.value()) }
    }
}

impl From<DataTypeId> for NodeId {
    /// The node identifier of a well-known node: its number in namespace 0.
    fn from(member: DataTypeId) -> (id: NodeId) {
        NodeId { namespace: 0, identifier: Identifier::Numeric(member.as_u32()) }
    }
}

impl vstd::std_specs::convert::FromSpecImpl<DataTypeId> for NodeId {
    open spec fn obeys_from_spec() -> bool {
        true
    }

    open spec fn from_spec(member: DataTypeId) -> NodeId {
        NodeId { namespace: 0, identifier: Identifier::Numeric(member.value()) }
    }
}

impl From<MethodId> for NodeId {
    /// The node identifier of a well-known node: its number in namespace 0.
    fn from(member: MethodId) -> (id: NodeId) {
        NodeId { namespace: 0, identifier: Identifier::Numeric(member.as_u32()) }
    }
}

impl vstd::std_specs::convert::FromSpecImpl<MethodId> for NodeId {
    open spec fn obeys_from_spec() -> bool {
        true
    }

    open spec fn from_spec(member: MethodId) -> NodeId {
        NodeId { namespace: 0, identifier: Identifier::Numeric(member.value()) }
    }
}

} // verus!
