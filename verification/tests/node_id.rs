use opcua_node_id::{
    ByteString, DataTypeId, DecodeError, EncodeError, Guid, Identifier, MethodId, NodeId, NodeIdError, NodeIdErrorKind,
    ObjectId, ReferenceTypeId, StatusCode, UAString, UaNullable, VariableId,
};
use std::collections::HashSet;
use std::sync::atomic::AtomicU32;

const NOT_CONVERTIBLE: NodeIdError = NodeIdError { kind: NodeIdErrorKind::NotConvertible };

#[test]
fn null_is_the_number_0_in_namespace_0() {
    let null = NodeId::null();
    assert_eq!(null.namespace, 0);
    assert_eq!(null.identifier, Identifier::Numeric(0));
    assert!(null.is_null());
    assert_eq!(NodeId::default(), null);
}

#[test]
fn nothing_else_is_null() {
    assert!(!NodeId::new(1, 0u32).is_null());
    assert!(!NodeId::new(0, 1u32).is_null());
    assert!(!NodeId::new(0, UAString::null()).is_null());
    assert!(!NodeId::new(0, "").is_null());
    assert!(!NodeId::new(0, Guid::null()).is_null());
    assert!(!NodeId::new(0, ByteString::null()).is_null());
}

#[test]
fn kinds_are_told_apart() {
    let number = NodeId::new(1, 5u32);
    let text = NodeId::new(1, "5");
    let guid = NodeId::new(1, Guid::null());
    let bytes = NodeId::new(1, ByteString::from(vec![5u8]));
    assert!(number.is_numeric() && !number.is_string() && !number.is_guid());
    assert!(!number.is_byte_string());
    assert!(text.is_string() && !text.is_numeric() && !text.is_guid() && !text.is_byte_string());
    assert!(guid.is_guid() && !guid.is_numeric() && !guid.is_string() && !guid.is_byte_string());
    assert!(bytes.is_byte_string() && !bytes.is_numeric() && !bytes.is_string());
    assert!(!bytes.is_guid());
    assert_eq!(number.as_u32(), Some(5));
    assert_eq!(text.as_u32(), None);
    assert_eq!(guid.as_u32(), None);
    assert_eq!(bytes.as_u32(), None);
}

#[test]
fn identifier_accessors_fail_on_another_kind() {
    let number = Identifier::from(5u32);
    let text = Identifier::from("five");
    let guid = Identifier::from(Guid::null());
    let bytes = Identifier::from(ByteString::from(vec![5u8]));
    assert_eq!(number.as_u32(), Some(5));
    assert_eq!(number.as_string(), None);
    assert_eq!(number.as_guid(), None);
    assert_eq!(number.as_byte_string(), None);
    assert_eq!(text.as_string(), Some(&UAString::from("five")));
    assert_eq!(text.as_u32(), None);
    assert_eq!(guid.as_guid(), Some(&Guid::null()));
    assert_eq!(guid.as_string(), None);
    assert_eq!(bytes.as_byte_string(), Some(&ByteString::from(vec![5u8])));
    assert_eq!(bytes.as_guid(), None);
    assert!(number.is_numeric() && text.is_string() && guid.is_guid() && bytes.is_byte_string());
}

#[test]
fn different_kinds_are_never_equal() {
    assert_ne!(NodeId::new(0, 0u32), NodeId::new(0, "0"));
    assert_ne!(NodeId::new(0, ""), NodeId::new(0, ByteString::from(Vec::new())));
    assert_ne!(NodeId::new(0, Guid::null()), NodeId::new(0, ByteString::from(vec![0u8; 16])));
    assert_ne!(NodeId::new(0, UAString::null()), NodeId::new(0, ByteString::null()));
}

#[test]
fn absent_and_empty_differ() {
    assert_ne!(NodeId::new(0, UAString::null()), NodeId::new(0, ""));
    assert_eq!(NodeId::new(0, UAString::null()), NodeId::new(0, UAString::null()));
    assert_ne!(
        NodeId::new(0, ByteString::null()),
        NodeId::new(0, ByteString::from(Vec::new()))
    );
    assert_eq!(NodeId::new(0, ByteString::null()), NodeId::new(0, ByteString::null()));
    assert!(UAString::null().is_null() && !UAString::from("").is_null());
    assert!(ByteString::null().is_null() && !ByteString::from(Vec::new()).is_null());
}

#[test]
fn equality_looks_at_namespace_and_value() {
    assert_eq!(NodeId::new(1, 5u32), NodeId::new(1, 5u32));
    assert_ne!(NodeId::new(1, 5u32), NodeId::new(2, 5u32));
    assert_ne!(NodeId::new(1, 5u32), NodeId::new(1, 6u32));
    assert_ne!(NodeId::new(1, "a"), NodeId::new(1, "b"));
    assert_ne!(NodeId::new(1, "a"), NodeId::new(1, "ab"));
}

#[test]
fn conversions_into_a_node_id() {
    assert_eq!(NodeId::from(5u32), NodeId::new(0, 5u32));
    assert_eq!(NodeId::from((3u16, 5u32)), NodeId::new(3, 5u32));
    assert_eq!(NodeId::from("abc"), NodeId::new(0, "abc"));
    assert_eq!(NodeId::from((3u16, "abc")), NodeId::new(3, UAString::from("abc")));
    assert_eq!(NodeId::from(UAString::from("abc")), NodeId::new(0, "abc"));
    assert_eq!(NodeId::from((3u16, UAString::null())), NodeId::new(3, UAString::null()));
    assert_eq!(NodeId::from(Guid::null()), NodeId::new(0, Guid::null()));
    assert_eq!(NodeId::from((3u16, Guid::null())), NodeId::new(3, Guid::null()));
    assert_eq!(
        NodeId::from(ByteString::from(vec![1u8])),
        NodeId::new(0, ByteString::from(vec![1u8]))
    );
    assert_eq!(
        NodeId::from((3u16, ByteString::from(vec![1u8]))),
        NodeId::new(3, ByteString::from(vec![1u8]))
    );
    let id = NodeId::new(3, String::from("owned"));
    assert_eq!(NodeId::from(&id), id);
}

#[test]
fn well_known_folders() {
    assert_eq!(NodeId::root_folder_id(), NodeId::new(0, 84u32));
    assert_eq!(NodeId::objects_folder_id(), NodeId::new(0, 85u32));
    assert_eq!(NodeId::types_folder_id(), NodeId::new(0, 86u32));
    assert_eq!(NodeId::views_folder_id(), NodeId::new(0, 87u32));
}

#[test]
fn well_known_object_only_in_namespace_0() {
    assert_eq!(NodeId::new(0, 2253u32).as_object_id(), Ok(ObjectId::Server));
    assert_eq!(NodeId::new(1, 2253u32).as_object_id(), Err(NOT_CONVERTIBLE));
    assert_eq!(NodeId::new(0, "2253").as_object_id(), Err(NOT_CONVERTIBLE));
    assert_eq!(NodeId::new(0, 1u32).as_object_id(), Err(NOT_CONVERTIBLE));
    assert_eq!(NodeId::null().as_object_id(), Err(NOT_CONVERTIBLE));
}

#[test]
fn well_known_variable_type_and_method() {
    assert_eq!(
        NodeId::new(0, 2255u32).as_variable_id(),
        Ok(VariableId::Server_NamespaceArray)
    );
    assert_eq!(NodeId::new(2, 2255u32).as_variable_id(), Err(NOT_CONVERTIBLE));
    assert_eq!(NodeId::new(0, 2253u32).as_variable_id(), Err(NOT_CONVERTIBLE));
    assert_eq!(NodeId::new(0, 11u32).as_data_type_id(), Ok(DataTypeId::Double));
    assert_eq!(NodeId::new(1, 11u32).as_data_type_id(), Err(NOT_CONVERTIBLE));
    assert_eq!(NodeId::new(0, 0u32).as_data_type_id(), Err(NOT_CONVERTIBLE));
    assert_eq!(
        NodeId::new(0, 11492u32).as_method_id(),
        Ok(MethodId::Server_GetMonitoredItems)
    );
    assert_eq!(NodeId::new(0, Guid::null()).as_method_id(), Err(NOT_CONVERTIBLE));
}

#[test]
fn reference_type_tells_null_apart() {
    assert_eq!(
        NodeId::new(0, 35u32).as_reference_type_id(),
        Ok(ReferenceTypeId::Organizes)
    );
    assert_eq!(
        NodeId::null().as_reference_type_id(),
        Err(NodeIdError { kind: NodeIdErrorKind::Null })
    );
    assert_eq!(NodeId::new(1, 0u32).as_reference_type_id(), Err(NOT_CONVERTIBLE));
    assert_eq!(NodeId::new(1, 35u32).as_reference_type_id(), Err(NOT_CONVERTIBLE));
    assert_eq!(NodeId::new(0, 42u32).as_reference_type_id(), Err(NOT_CONVERTIBLE));
    assert_eq!(NodeId::new(0, "35").as_reference_type_id(), Err(NOT_CONVERTIBLE));
}

#[test]
fn enumerations_go_to_node_ids_and_back() {
    for member in [
        ObjectId::RootFolder,
        ObjectId::Server,
        ObjectId::ModellingRule_Mandatory,
        ObjectId::Server_ServerRedundancy,
    ] {
        let id = NodeId::from(member);
        assert_eq!(id.namespace, 0);
        assert_eq!(id.as_u32(), Some(member.as_u32()));
        assert_eq!(id.as_object_id(), Ok(member));
        assert_eq!(ObjectId::try_from(member.as_u32()), Ok(member));
    }
    assert_eq!(ObjectId::try_from(0u32), Err(()));
    assert_eq!(NodeId::from(VariableId::Server_Auditing), NodeId::new(0, 2994u32));
    assert_eq!(NodeId::from(ReferenceTypeId::HasComponent), NodeId::new(0, 47u32));
    assert_eq!(NodeId::from(DataTypeId::Boolean), NodeId::new(0, 1u32));
    assert_eq!(NodeId::from(MethodId::Server_ResendData), NodeId::new(0, 12873u32));
    assert_eq!(ReferenceTypeId::try_from(45u32), Ok(ReferenceTypeId::HasSubtype));
    assert_eq!(DataTypeId::try_from(29u32), Ok(DataTypeId::Enumeration));
    assert_eq!(DataTypeId::try_from(30u32), Err(()));
    assert_eq!(VariableId::try_from(2256u32), Ok(VariableId::Server_ServerStatus));
    assert_eq!(MethodId::try_from(12886u32), Ok(MethodId::Server_RequestServerStateChange));
}

#[test]
fn next_numeric_counts_up_from_the_counter() {
    let counter = AtomicU32::new(1);
    let first = NodeId::next_numeric(2, &counter);
    let second = NodeId::next_numeric(7, &counter);
    assert_eq!(first, NodeId::new(2, 1u32));
    assert_eq!(second, NodeId::new(7, 2u32));
}

#[test]
fn next_numeric_gives_no_value_twice() {
    let counter = AtomicU32::new(1);
    let mut seen = HashSet::new();
    for i in 0..1000u16 {
        let id = NodeId::next_numeric(i % 3, &counter);
        assert!(id.is_numeric());
        assert_eq!(id.namespace, i % 3);
        assert!(seen.insert(id.as_u32().unwrap()));
    }
    assert_eq!(seen.len(), 1000);
}

#[test]
fn next_numeric_wraps_around() {
    let counter = AtomicU32::new(u32::MAX);
    assert_eq!(NodeId::next_numeric(0, &counter), NodeId::new(0, u32::MAX));
    assert_eq!(NodeId::next_numeric(0, &counter), NodeId::new(0, 0u32));
}

#[test]
fn status_codes() {
    assert_eq!(StatusCode::BadNodeIdInvalid.bits(), 0x8033_0000);
    assert_eq!(StatusCode::BadDecodingError.bits(), 0x8007_0000);
    assert_eq!(StatusCode::BadEncodingLimitsExceeded.bits(), 0x8008_0000);
    assert_eq!(DecodeError::MalformedTag(9).status_code(), StatusCode::BadDecodingError);
    assert_eq!(DecodeError::Truncated.status_code(), StatusCode::BadDecodingError);
    assert_eq!(
        EncodeError::PayloadTooLong.status_code(),
        StatusCode::BadEncodingLimitsExceeded
    );
}

#[test]
fn clones_are_equal() {
    for id in [
        NodeId::new(1, 5u32),
        NodeId::new(1, "five"),
        NodeId::new(1, UAString::null()),
        NodeId::new(1, Guid::from_bytes([7; 16])),
        NodeId::new(1, ByteString::from(vec![5u8, 6])),
        NodeId::new(1, ByteString::null()),
    ] {
        assert_eq!(id.clone(), id);
        assert_eq!(id.identifier.clone(), id.identifier);
    }
}

#[test]
fn null_values() {
    assert!(NodeId::null().is_ua_null());
    assert!(!NodeId::new(1, 0u32).is_ua_null());
    assert!(UAString::null().is_ua_null() && !UAString::from("").is_ua_null());
    assert!(ByteString::null().is_ua_null() && !ByteString::from(Vec::new()).is_ua_null());
    assert!(Guid::null().is_ua_null() && !Guid::from_bytes([1; 16]).is_ua_null());
}

#[test]
fn error_text() {
    assert_eq!(NOT_CONVERTIBLE.to_string(), "NodeIdError");
}
