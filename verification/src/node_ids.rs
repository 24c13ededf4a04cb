//! The identifiers that the standard gives to nodes of namespace 0, by kind
//! of node. Each enumeration holds the members that this library knows by
//! name; the standard's own lists are longer.

use vstd::prelude::*;

verus! {

/// A well-known object of the standard address space.
#[allow(non_camel_case_types)]
#[derive(Clone, Copy, Debug, PartialEq, Eq, Structural, Hash)]
pub enum ObjectId {
    ModellingRule_Mandatory,
    ModellingRule_Optional,
    RootFolder,
    ObjectsFolder,
    TypesFolder,
    ViewsFolder,
    ObjectTypesFolder,
    VariableTypesFolder,
    DataTypesFolder,
    ReferenceTypesFolder,
    XmlSchema_TypeSystem,
    OPCBinarySchema_TypeSystem,
    Server,
    Server_ServerCapabilities,
    Server_ServerDiagnostics,
    Server_VendorServerInfo,
    Server_ServerRedundancy,
}

impl ObjectId {
    /// The number that the standard gives to the member.
    pub open spec fn value(self) -> u32 {
        match self {
            ObjectId::ModellingRule_Mandatory => 78,
            ObjectId::ModellingRule_Optional => 80,
            ObjectId::RootFolder => 84,
            ObjectId::ObjectsFolder => 85,
            ObjectId::TypesFolder => 86,
            ObjectId::ViewsFolder => 87,
            ObjectId::ObjectTypesFolder => 88,
            ObjectId::VariableTypesFolder => 89,
            ObjectId::DataTypesFolder => 90,
            ObjectId::ReferenceTypesFolder => 91,
            ObjectId::XmlSchema_TypeSystem => 92,
            ObjectId::OPCBinarySchema_TypeSystem => 93,
            ObjectId::Server => 2253,
            ObjectId::Server_ServerCapabilities => 2268,
            ObjectId::Server_ServerDiagnostics => 2274,
            ObjectId::Server_VendorServerInfo => 2295,
            ObjectId::Server_ServerRedundancy => 2296,
        }
    }

    /// The member with the number `value`, where there is one.
    pub open spec fn of_value(value: u32) -> Option<ObjectId> {
        if value == 78 {
            Some(ObjectId::ModellingRule_Mandatory)
        } else if value == 80 {
            Some(ObjectId::ModellingRule_Optional)
        } else if value == 84 {
            Some(ObjectId::RootFolder)
        } else if value == 85 {
            Some(ObjectId::ObjectsFolder)
        } else if value == 86 {
            Some(ObjectId::TypesFolder)
        } else if value == 87 {
            Some(ObjectId::ViewsFolder)
        } else if value == 88 {
            Some(ObjectId::ObjectTypesFolder)
        } else if value == 89 {
            Some(ObjectId::VariableTypesFolder)
        } else if value == 90 {
            Some(ObjectId::DataTypesFolder)
        } else if value == 91 {
            Some(ObjectId::ReferenceTypesFolder)
        } else if value == 92 {
            Some(ObjectId::XmlSchema_TypeSystem)
        } else if value == 93 {
            Some(ObjectId::OPCBinarySchema_TypeSystem)
        } else if value == 2253 {
            Some(ObjectId::Server)
        } else if value == 2268 {
            Some(ObjectId::Server_ServerCapabilities)
        } else if value == 2274 {
            Some(ObjectId::Server_ServerDiagnostics)
        } else if value == 2295 {
            Some(ObjectId::Server_VendorServerInfo)
        } else if value == 2296 {
            Some(ObjectId::Server_ServerRedundancy)
        } else {
            None
        }
    }

    /// Each member is the one that has its number, and a number has at most
    /// one member.
    pub proof fn lemma_value_of_value(member: ObjectId, value: u32)
        ensures
            ObjectId::of_value(member.value()) == Some(member),
            ObjectId::of_value(value) == Some(member) ==> member.value() == value,
    {
    }

    /// The number of the member.
    pub fn as_u32(&self) -> (value: u32)
        ensures
            value == self.value(),
    {
        match self {
            ObjectId::ModellingRule_Mandatory => 78,
            ObjectId::ModellingRule_Optional => 80,
            ObjectId::RootFolder => 84,
            ObjectId::ObjectsFolder => 85,
            ObjectId::TypesFolder => 86,
            ObjectId::ViewsFolder => 87,
            ObjectId::ObjectTypesFolder => 88,
            ObjectId::VariableTypesFolder => 89,
            ObjectId::DataTypesFolder => 90,
            ObjectId::ReferenceTypesFolder => 91,
            ObjectId::XmlSchema_TypeSystem => 92,
            ObjectId::OPCBinarySchema_TypeSystem => 93,
            ObjectId::Server => 2253,
            ObjectId::Server_ServerCapabilities => 2268,
            ObjectId::Server_ServerDiagnostics => 2274,
            ObjectId::Server_VendorServerInfo => 2295,
            ObjectId::Server_ServerRedundancy => 2296,
        }
    }
}

impl TryFrom<u32> for ObjectId {
    type Error = ();

    /// The member with the number `value`, or an error where there is none.
    fn try_from(value: u32) -> (r: Result<ObjectId, ()>) {
        match value {
            78 => Ok(ObjectId::ModellingRule_Mandatory),
            80 => Ok(ObjectId::ModellingRule_Optional),
            84 => Ok(ObjectId::RootFolder),
            85 => Ok(ObjectId::ObjectsFolder),
            86 => Ok(ObjectId::TypesFolder),
            87 => Ok(ObjectId::ViewsFolder),
            88 => Ok(ObjectId::ObjectTypesFolder),
            89 => Ok(ObjectId::VariableTypesFolder),
            90 => Ok(ObjectId::DataTypesFolder),
            91 => Ok(ObjectId::ReferenceTypesFolder),
            92 => Ok(ObjectId::XmlSchema_TypeSystem),
            93 => Ok(ObjectId::OPCBinarySchema_TypeSystem),
            2253 => Ok(ObjectId::Server),
            2268 => Ok(ObjectId::Server_ServerCapabilities),
            2274 => Ok(ObjectId::Server_ServerDiagnostics),
            2295 => Ok(ObjectId::Server_VendorServerInfo),
            2296 => Ok(ObjectId::Server_ServerRedundancy),
            _ => Err(()),
        }
    }
}

impl vstd::std_specs::convert::TryFromSpecImpl<u32> for ObjectId {
    open spec fn obeys_try_from_spec() -> bool {
        true
    }

    open spec fn try_from_spec(value: u32) -> Result<ObjectId, ()> {
        match ObjectId::of_value(value) {
            Some(member) => Ok(member),
            None => Err(()),
        }
    }
}

/// A well-known variable of the standard address space.
#[allow(non_camel_case_types)]
#[derive(Clone, Copy, Debug, PartialEq, Eq, Structural, Hash)]
pub enum VariableId {
    Server_ServerArray,
    Server_NamespaceArray,
    Server_ServerStatus,
    Server_ServerStatus_StartTime,
    Server_ServerStatus_CurrentTime,
    Server_ServerStatus_State,
    Server_ServerStatus_BuildInfo,
    Server_ServiceLevel,
    Server_Auditing,
}

impl VariableId {
    /// The number that the standard gives to the member.
    pub open spec fn value(self) -> u32 {
        match self {
            VariableId::Server_ServerArray => 2254,
            VariableId::Server_NamespaceArray => 2255,
            VariableId::Server_ServerStatus => 2256,
            VariableId::Server_ServerStatus_StartTime => 2257,
            VariableId::Server_ServerStatus_CurrentTime => 2258,
            VariableId::Server_ServerStatus_State => 2259,
            VariableId::Server_ServerStatus_BuildInfo => 2260,
            VariableId::Server_ServiceLevel => 2267,
            VariableId::Server_Auditing => 2994,
        }
    }

    /// The member with the number `value`, where there is one.
    pub open spec fn of_value(value: u32) -> Option<VariableId> {
        if value == 2254 {
            Some(VariableId::Server_ServerArray)
        } else if value == 2255 {
            Some(VariableId::Server_NamespaceArray)
        } else if value == 2256 {
            Some(VariableId::Server_ServerStatus)
        } else if value == 2257 {
            Some(VariableId::Server_ServerStatus_StartTime)
        } else if value == 2258 {
            Some(VariableId::Server_ServerStatus_CurrentTime)
        } else if value == 2259 {
            Some(VariableId::Server_ServerStatus_State)
        } else if value == 2260 {
            Some(VariableId::Server_ServerStatus_BuildInfo)
        } else if value == 2267 {
            Some(VariableId::Server_ServiceLevel)
        } else if value == 2994 {
            Some(VariableId::Server_Auditing)
        } else {
            None
        }
    }

    /// Each member is the one that has its number, and a number has at most
    /// one member.
    pub proof fn lemma_value_of_value(member: VariableId, value: u32)
        ensures
            VariableId::of_value(member.value()) == Some(member),
            VariableId::of_value(value) == Some(member) ==> member.value() == value,
    {
    }

    /// The number of the member.
    pub fn as_u32(&self) -> (value: u32)
        ensures
            value == self.value(),
    {
        match self {
            VariableId::Server_ServerArray => 2254,
            VariableId::Server_NamespaceArray => 2255,
            VariableId::Server_ServerStatus => 2256,
            VariableId::Server_ServerStatus_StartTime => 2257,
            VariableId::Server_ServerStatus_CurrentTime => 2258,
            VariableId::Server_ServerStatus_State => 2259,
            VariableId::Server_ServerStatus_BuildInfo => 2260,
            VariableId::Server_ServiceLevel => 2267,
            VariableId::Server_Auditing => 2994,
        }
    }
}

impl TryFrom<u32> for VariableId {
    type Error = ();

    /// The member with the number `value`, or an error where there is none.
    fn try_from(value: u32) -> (r: Result<VariableId, ()>) {
        match value {
            2254 => Ok(VariableId::Server_ServerArray),
            2255 => Ok(VariableId::Server_NamespaceArray),
            2256 => Ok(VariableId::Server_ServerStatus),
            2257 => Ok(VariableId::Server_ServerStatus_StartTime),
            2258 => Ok(VariableId::Server_ServerStatus_CurrentTime),
            2259 => Ok(VariableId::Server_ServerStatus_State),
            2260 => Ok(VariableId::Server_ServerStatus_BuildInfo),
            2267 => Ok(VariableId::Server_ServiceLevel),
            2994 => Ok(VariableId::Server_Auditing),
            _ => Err(()),
        }
    }
}

impl vstd::std_specs::convert::TryFromSpecImpl<u32> for VariableId {
    open spec fn obeys_try_from_spec() -> bool {
        true
    }

    open spec fn try_from_spec(value: u32) -> Result<VariableId, ()> {
        match VariableId::of_value(value) {
            Some(member) => Ok(member),
            None => Err(()),
        }
    }
}

/// A well-known reference type.
#[allow(non_camel_case_types)]
#[derive(Clone, Copy, Debug, PartialEq, Eq, Structural, Hash)]
pub enum ReferenceTypeId {
    References,
    NonHierarchicalReferences,
    HierarchicalReferences,
    HasChild,
    Organizes,
    HasEventSource,
    HasModellingRule,
    HasEncoding,
    HasDescription,
    HasTypeDefinition,
    GeneratesEvent,
    Aggregates,
    HasSubtype,
    HasProperty,
    HasComponent,
    HasNotifier,
    HasOrderedComponent,
}

impl ReferenceTypeId {
    /// The number that the standard gives to the member.
    pub open spec fn value(self) -> u32 {
        match self {
            ReferenceTypeId::References => 31,
            ReferenceTypeId::NonHierarchicalReferences => 32,
            ReferenceTypeId::HierarchicalReferences => 33,
            ReferenceTypeId::HasChild => 34,
            ReferenceTypeId::Organizes => 35,
            ReferenceTypeId::HasEventSource => 36,
            ReferenceTypeId::HasModellingRule => 37,
            ReferenceTypeId::HasEncoding => 38,
            ReferenceTypeId::HasDescription => 39,
            ReferenceTypeId::HasTypeDefinition => 40,
            ReferenceTypeId::GeneratesEvent => 41,
            ReferenceTypeId::Aggregates => 44,
            ReferenceTypeId::HasSubtype => 45,
            ReferenceTypeId::HasProperty => 46,
            ReferenceTypeId::HasComponent => 47,
            ReferenceTypeId::HasNotifier => 48,
            ReferenceTypeId::HasOrderedComponent => 49,
        }
    }

    /// The member with the number `value`, where there is one.
    pub open spec fn of_value(value: u32) -> Option<ReferenceTypeId> {
        if value == 31 {
            Some(ReferenceTypeId::References)
        } else if value == 32 {
            Some(ReferenceTypeId::NonHierarchicalReferences)
        } else if value == 33 {
            Some(ReferenceTypeId::HierarchicalReferences)
        } else if value == 34 {
            Some(ReferenceTypeId::HasChild)
        } else if value == 35 {
            Some(ReferenceTypeId::Organizes)
        } else if value == 36 {
            Some(ReferenceTypeId::HasEventSource)
        } else if value == 37 {
            Some(ReferenceTypeId::HasModellingRule)
        } else if value == 38 {
            Some(ReferenceTypeId::HasEncoding)
        } else if value == 39 {
            Some(ReferenceTypeId::HasDescription)
        } else if value == 40 {
            Some(ReferenceTypeId::HasTypeDefinition)
        } else if value == 41 {
            Some(ReferenceTypeId::GeneratesEvent)
        } else if value == 44 {
            Some(ReferenceTypeId::Aggregates)
        } else if value == 45 {
            Some(ReferenceTypeId::HasSubtype)
        } else if value == 46 {
            Some(ReferenceTypeId::HasProperty)
        } else if value == 47 {
            Some(ReferenceTypeId::HasComponent)
        } else if value == 48 {
            Some(ReferenceTypeId::HasNotifier)
        } else if value == 49 {
            Some(ReferenceTypeId::HasOrderedComponent)
        } else {
            None
        }
    }

    /// Each member is the one that has its number, and a number has at most
    /// one member.
    pub proof fn lemma_value_of_value(member: ReferenceTypeId, value: u32)
        ensures
            ReferenceTypeId::of_value(member.value()) == Some(member),
            ReferenceTypeId::of_value(value) == Some(member) ==> member.value() == value,
    {
    }

    /// The number of the member.
    pub fn as_u32(&self) -> (value: u32)
        ensures
            value == self.value(),
    {
        match self {
            ReferenceTypeId::References => 31,
            ReferenceTypeId::NonHierarchicalReferences => 32,
            ReferenceTypeId::HierarchicalReferences => 33,
            ReferenceTypeId::HasChild => 34,
            ReferenceTypeId::Organizes => 35,
            ReferenceTypeId::HasEventSource => 36,
            ReferenceTypeId::HasModellingRule => 37,
            ReferenceTypeId::HasEncoding => 38,
            ReferenceTypeId::HasDescription => 39,
            ReferenceTypeId::HasTypeDefinition => 40,
            ReferenceTypeId::GeneratesEvent => 41,
            ReferenceTypeId::Aggregates => 44,
            ReferenceTypeId::HasSubtype => 45,
            ReferenceTypeId::HasProperty => 46,
            ReferenceTypeId::HasComponent => 47,
            ReferenceTypeId::HasNotifier => 48,
            ReferenceTypeId::HasOrderedComponent => 49,
        }
    }
}

impl TryFrom<u32> for ReferenceTypeId {
    type Error = ();

    /// The member with the number `value`, or an error where there is none.
    fn try_from(value: u32) -> (r: Result<ReferenceTypeId, ()>) {
        match value {
            31 => Ok(ReferenceTypeId::References),
            32 => Ok(ReferenceTypeId::NonHierarchicalReferences),
            33 => Ok(ReferenceTypeId::HierarchicalReferences),
            34 => Ok(ReferenceTypeId::HasChild),
            35 => Ok(ReferenceTypeId::Organizes),
            36 => Ok(ReferenceTypeId::HasEventSource),
            37 => Ok(ReferenceTypeId::HasModellingRule),
            38 => Ok(ReferenceTypeId::HasEncoding),
            39 => Ok(ReferenceTypeId::HasDescription),
            40 => Ok(ReferenceTypeId::HasTypeDefinition),
            41 => Ok(ReferenceTypeId::GeneratesEvent),
            44 => Ok(ReferenceTypeId::Aggregates),
            45 => Ok(ReferenceTypeId::HasSubtype),
            46 => Ok(ReferenceTypeId::HasProperty),
            47 => Ok(ReferenceTypeId::HasComponent),
            48 => Ok(ReferenceTypeId::HasNotifier),
            49 => Ok(ReferenceTypeId::HasOrderedComponent),
            _ => Err(()),
        }
    }
}

impl vstd::std_specs::convert::TryFromSpecImpl<u32> for ReferenceTypeId {
    open spec fn obeys_try_from_spec() -> bool {
        true
    }

    open spec fn try_from_spec(value: u32) -> Result<ReferenceTypeId, ()> {
        match ReferenceTypeId::of_value(value) {
            Some(member) => Ok(member),
            None => Err(()),
        }
    }
}

/// A well-known data type.
#[allow(non_camel_case_types)]
#[derive(Clone, Copy, Debug, PartialEq, Eq, Structural, Hash)]
pub enum DataTypeId {
    Boolean,
    SByte,
    Byte,
    Int16,
    UInt16,
    Int32,
    UInt32,
    Int64,
    UInt64,
    Float,
    Double,
    String,
    DateTime,
    Guid,
    ByteString,
    XmlElement,
    NodeId,
    ExpandedNodeId,
    StatusCode,
    QualifiedName,
    LocalizedText,
    Structure,
    DataValue,
    BaseDataType,
    DiagnosticInfo,
    Number,
    Integer,
    UInteger,
    Enumeration,
}

impl DataTypeId {
    /// The number that the standard gives to the member.
    pub open spec fn value(self) -> u32 {
        match self {
            DataTypeId::Boolean => 1,
            DataTypeId::SByte => 2,
            DataTypeId::Byte => 3,
            DataTypeId::Int16 => 4,
            DataTypeId::UInt16 => 5,
            DataTypeId::Int32 => 6,
            DataTypeId::UInt32 => 7,
            DataTypeId::Int64 => 8,
            DataTypeId::UInt64 => 9,
            DataTypeId::Float => 10,
            DataTypeId::Double => 11,
            DataTypeId::String => 12,
            DataTypeId::DateTime => 13,
            DataTypeId::Guid => 14,
            DataTypeId::ByteString => 15,
            DataTypeId::XmlElement => 16,
            DataTypeId::NodeId => 17,
            DataTypeId::ExpandedNodeId => 18,
            DataTypeId::StatusCode => 19,
            DataTypeId::QualifiedName => 20,
            DataTypeId::LocalizedText => 21,
            DataTypeId::Structure => 22,
            DataTypeId::DataValue => 23,
            DataTypeId::BaseDataType => 24,
            DataTypeId::DiagnosticInfo => 25,
            DataTypeId::Number => 26,
            DataTypeId::Integer => 27,
            DataTypeId::UInteger => 28,
            DataTypeId::Enumeration => 29,
        }
    }

    /// The member with the number `value`, where there is one.
    pub open spec fn of_value(value: u32) -> Option<DataTypeId> {
        if value == 1 {
            Some(DataTypeId::Boolean)
        } else if value == 2 {
            Some(DataTypeId::SByte)
        } else if value == 3 {
            Some(DataTypeId::Byte)
        } else if value == 4 {
            Some(DataTypeId::Int16)
        } else if value == 5 {
            Some(DataTypeId::UInt16)
        } else if value == 6 {
            Some(DataTypeId::Int32)
        } else if value == 7 {
            Some(DataTypeId::UInt32)
        } else if value == 8 {
            Some(DataTypeId::Int64)
        } else if value == 9 {
            Some(DataTypeId::UInt64)
        } else if value == 10 {
            Some(DataTypeId::Float)
        } else if value == 11 {
            Some(DataTypeId::Double)
        } else if value == 12 {
            Some(DataTypeId::String)
        } else if value == 13 {
            Some(DataTypeId::DateTime)
        } else if value == 14 {
            Some(DataTypeId::Guid)
        } else if value == 15 {
            Some(DataTypeId::ByteString)
        } else if value == 16 {
            Some(DataTypeId::XmlElement)
        } else if value == 17 {
            Some(DataTypeId::NodeId)
        } else if value == 18 {
            Some(DataTypeId::ExpandedNodeId)
        } else if value == 19 {
            Some(DataTypeId::StatusCode)
        } else if value == 20 {
            Some(DataTypeId::QualifiedName)
        } else if value == 21 {
            Some(DataTypeId::LocalizedText)
        } else if value == 22 {
            Some(DataTypeId::Structure)
        } else if value == 23 {
            Some(DataTypeId::DataValue)
        } else if value == 24 {
            Some(DataTypeId::BaseDataType)
        } else if value == 25 {
            Some(DataTypeId::DiagnosticInfo)
        } else if value == 26 {
            Some(DataTypeId::Number)
        } else if value == 27 {
            Some(DataTypeId::Integer)
        } else if value == 28 {
            Some(DataTypeId::UInteger)
        } else if value == 29 {
            Some(DataTypeId::Enumeration)
        } else {
            None
        }
    }

    /// Each member is the one that has its number, and a number has at most
    /// one member.
    pub proof fn lemma_value_of_value(member: DataTypeId, value: u32)
        ensures
            DataTypeId::of_value(member.value()) == Some(member),
            DataTypeId::of_value(value) == Some(member) ==> member.value() == value,
    {
    }

    /// The number of the member.
    pub fn as_u32(&self) -> (value: u32)
        ensures
            value == self.value(),
    {
        match self {
            DataTypeId::Boolean => 1,
            DataTypeId::SByte => 2,
            DataTypeId::Byte => 3,
            DataTypeId::Int16 => 4,
            DataTypeId::UInt16 => 5,
            DataTypeId::Int32 => 6,
            DataTypeId::UInt32 => 7,
            DataTypeId::Int64 => 8,
            DataTypeId::UInt64 => 9,
            DataTypeId::Float => 10,
            DataTypeId::Double => 11,
            DataTypeId::String => 12,
            DataTypeId::DateTime => 13,
            DataTypeId::Guid => 14,
            DataTypeId::ByteString => 15,
            DataTypeId::XmlElement => 16,
            DataTypeId::NodeId => 17,
            DataTypeId::ExpandedNodeId => 18,
            DataTypeId::StatusCode => 19,
            DataTypeId::QualifiedName => 20,
            DataTypeId::LocalizedText => 21,
            DataTypeId::Structure => 22,
            DataTypeId::DataValue => 23,
            DataTypeId::BaseDataType => 24,
            DataTypeId::DiagnosticInfo => 25,
            DataTypeId::Number => 26,
            DataTypeId::Integer => 27,
            DataTypeId::UInteger => 28,
            DataTypeId::Enumeration => 29,
        }
    }
}

impl TryFrom<u32> for DataTypeId {
    type Error = ();

    /// The member with the number `value`, or an error where there is none.
    fn try_from(value: u32) -> (r: Result<DataTypeId, ()>) {
        match value {
            1 => Ok(DataTypeId::Boolean),
            2 => Ok(DataTypeId::SByte),
            3 => Ok(DataTypeId::Byte),
            4 => Ok(DataTypeId::Int16),
            5 => Ok(DataTypeId::UInt16),
            6 => Ok(DataTypeId::Int32),
            7 => Ok(DataTypeId::UInt32),
            8 => Ok(DataTypeId::Int64),
            9 => Ok(DataTypeId::UInt64),
            10 => Ok(DataTypeId::Float),
            11 => Ok(DataTypeId::Double),
            12 => Ok(DataTypeId::String),
            13 => Ok(DataTypeId::DateTime),
            14 => Ok(DataTypeId::Guid),
            15 => Ok(DataTypeId::ByteString),
            16 => Ok(DataTypeId::XmlElement),
            17 => Ok(DataTypeId::NodeId),
            18 => Ok(DataTypeId::ExpandedNodeId),
            19 => Ok(DataTypeId::StatusCode),
            20 => Ok(DataTypeId::QualifiedName),
            21 => Ok(DataTypeId::LocalizedText),
            22 => Ok(DataTypeId::Structure),
            23 => Ok(DataTypeId::DataValue),
            24 => Ok(DataTypeId::BaseDataType),
            25 => Ok(DataTypeId::DiagnosticInfo),
            26 => Ok(DataTypeId::Number),
            27 => Ok(DataTypeId::Integer),
            28 => Ok(DataTypeId::UInteger),
            29 => Ok(DataTypeId::Enumeration),
            _ => Err(()),
        }
    }
}

impl vstd::std_specs::convert::TryFromSpecImpl<u32> for DataTypeId {
    open spec fn obeys_try_from_spec() -> bool {
        true
    }

    open spec fn try_from_spec(value: u32) -> Result<DataTypeId, ()> {
        match DataTypeId::of_value(value) {
            Some(member) => Ok(member),
            None => Err(()),
        }
    }
}

/// A well-known method of the standard address space.
#[allow(non_camel_case_types)]
#[derive(Clone, Copy, Debug, PartialEq, Eq, Structural, Hash)]
pub enum MethodId {
    Server_GetMonitoredItems,
    Server_SetSubscriptionDurable,
    Server_ResendData,
    Server_RequestServerStateChange,
}

impl MethodId {
    /// The number that the standard gives to the member.
    pub open spec fn value(self) -> u32 {
        match self {
            MethodId::Server_GetMonitoredItems => 11492,
            MethodId::Server_SetSubscriptionDurable => 12749,
            MethodId::Server_ResendData => 12873,
            MethodId::Server_RequestServerStateChange => 12886,
        }
    }

    /// The member with the number `value`, where there is one.
    pub open spec fn of_value(value: u32) -> Option<MethodId> {
        if value == 11492 {
            Some(MethodId::Server_GetMonitoredItems)
        } else if value == 12749 {
            Some(MethodId::Server_SetSubscriptionDurable)
        } else if value == 12873 {
            Some(MethodId::Server_ResendData)
        } else if value == 12886 {
            Some(MethodId::Server_RequestServerStateChange)
        } else {
            None
        }
    }

    /// Each member is the one that has its number, and a number has at most
    /// one member.
    pub proof fn lemma_value_of_value(member: MethodId, value: u32)
        ensures
            MethodId::of_value(member.value()) == Some(member),
            MethodId::of_value(value) == Some(member) ==> member.value() == value,
    {
    }

    /// The number of the member.
    pub fn as_u32(&self) -> (value: u32)
        ensures
            value == self.value(),
    {
        match self {
            MethodId::Server_GetMonitoredItems => 11492,
            MethodId::Server_SetSubscriptionDurable => 12749,
            MethodId::Server_ResendData => 12873,
            MethodId::Server_RequestServerStateChange => 12886,
        }
    }
}

impl TryFrom<u32> for MethodId {
    type Error = ();

    /// The member with the number `value`, or an error where there is none.
    fn try_from(value: u32) -> (r: Result<MethodId, ()>) {
        match value {
            11492 => Ok(MethodId::Server_GetMonitoredItems),
            12749 => Ok(MethodId::Server_SetSubscriptionDurable),
            12873 => Ok(MethodId::Server_ResendData),
            12886 => Ok(MethodId::Server_RequestServerStateChange),
            _ => Err(()),
        }
    }
}

impl vstd::std_specs::convert::TryFromSpecImpl<u32> for MethodId {
    open spec fn obeys_try_from_spec() -> bool {
        true
    }

    open spec fn try_from_spec(value: u32) -> Result<MethodId, ()> {
        match MethodId::of_value(value) {
            Some(member) => Ok(member),
            None => Err(()),
        }
    }
}

} // verus!
