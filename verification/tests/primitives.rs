use opcua_node_id::decimal::{parse_decimal_range, push_decimal};
use opcua_node_id::encoding::{write_i32, write_u16, write_u32, write_u8};
use opcua_node_id::{ByteReader, ByteString, Context, DecodeError, Guid, UAString};

#[test]
fn integers_are_written_least_significant_byte_first() {
    let mut stream = Vec::new();
    write_u8(&mut stream, 0x12);
    write_u16(&mut stream, 0x3456);
    write_u32(&mut stream, 0x789a_bcde);
    write_i32(&mut stream, -2);
    write_i32(&mut stream, i32::MIN);
    write_i32(&mut stream, i32::MAX);
    assert_eq!(
        stream,
        vec![
            0x12, 0x56, 0x34, 0xde, 0xbc, 0x9a, 0x78, 0xfe, 0xff, 0xff, 0xff, 0x00, 0x00, 0x00,
            0x80, 0xff, 0xff, 0xff, 0x7f
        ]
    );
    let mut reader = ByteReader::new(&stream);
    assert_eq!(reader.read_u8(), Ok(0x12));
    assert_eq!(reader.read_u16(), Ok(0x3456));
    assert_eq!(reader.read_u32(), Ok(0x789a_bcde));
    assert_eq!(reader.read_i32(), Ok(-2));
    assert_eq!(reader.read_i32(), Ok(i32::MIN));
    assert_eq!(reader.read_i32(), Ok(i32::MAX));
    assert_eq!(reader.read_u8(), Err(DecodeError::Truncated));
}

#[test]
fn a_failed_read_takes_nothing() {
    let bytes = [1u8, 2, 3];
    let mut reader = ByteReader::new(&bytes);
    assert_eq!(reader.read_u32(), Err(DecodeError::Truncated));
    assert_eq!(reader.len(), 3);
    assert_eq!(reader.read_bytes(4), Err(DecodeError::Truncated));
    assert_eq!(reader.read_bytes(2), Ok(&bytes[..2]));
    assert_eq!(reader.read_u16(), Err(DecodeError::Truncated));
    assert_eq!(reader.read_u8(), Ok(3));
    assert_eq!(reader.read_bytes(0), Ok(&bytes[..0]));
}

#[test]
fn text_in_binary_form() {
    let ctx = Context::default();
    let mut stream = Vec::new();
    UAString::from("ab").encode(&mut stream, &ctx).unwrap();
    UAString::null().encode(&mut stream, &ctx).unwrap();
    assert_eq!(stream, vec![2, 0, 0, 0, b'a', b'b', 0xff, 0xff, 0xff, 0xff]);
    assert_eq!(UAString::from("ab").byte_len(&ctx), 6);
    assert_eq!(UAString::null().byte_len(&ctx), 4);
    let mut reader = ByteReader::new(&stream);
    assert_eq!(UAString::decode(&mut reader, &ctx), Ok(UAString::from("ab")));
    assert_eq!(UAString::decode(&mut reader, &ctx), Ok(UAString::null()));
    assert_eq!(UAString::decode(&mut reader, &ctx), Err(DecodeError::Truncated));
    assert_eq!(UAString::from("ab").as_ref(), "ab");
    assert_eq!(UAString::null().as_ref(), "");
    assert_eq!(UAString::from(String::from("ab")), UAString::from("ab"));
}

#[test]
fn bytes_in_binary_form() {
    let ctx = Context::default();
    let mut stream = Vec::new();
    ByteString::from(vec![7u8, 8]).encode(&mut stream, &ctx).unwrap();
    ByteString::null().encode(&mut stream, &ctx).unwrap();
    assert_eq!(stream, vec![2, 0, 0, 0, 7, 8, 0xff, 0xff, 0xff, 0xff]);
    assert_eq!(ByteString::from(vec![7u8, 8]).byte_len(&ctx), 6);
    let mut reader = ByteReader::new(&stream);
    assert_eq!(ByteString::decode(&mut reader, &ctx), Ok(ByteString::from(vec![7u8, 8])));
    assert_eq!(ByteString::decode(&mut reader, &ctx), Ok(ByteString::null()));
    assert_eq!(ByteString::from(vec![7u8, 8]).as_ref(), &[7u8, 8]);
    assert_eq!(ByteString::null().as_ref(), &[0u8; 0]);
}

#[test]
fn guid_in_binary_form() {
    let guid = Guid::parse("00112233-4455-6677-8899-aabbccddeeff").unwrap();
    let mut stream = Vec::new();
    guid.encode(&mut stream);
    assert_eq!(
        stream,
        vec![
            0x33, 0x22, 0x11, 0x00, 0x55, 0x44, 0x77, 0x66, 0x88, 0x99, 0xaa, 0xbb, 0xcc, 0xdd,
            0xee, 0xff
        ]
    );
    assert_eq!(guid.byte_len(), 16);
    let mut reader = ByteReader::new(&stream);
    assert_eq!(Guid::decode(&mut reader), Ok(guid));
    assert_eq!(Guid::decode(&mut reader), Err(DecodeError::Truncated));
}

#[test]
fn decimal_notation() {
    for n in [0u64, 9, 10, 99, 100, 65535, 4294967295, u64::MAX] {
        let mut out = String::from(">");
        push_decimal(&mut out, n);
        assert_eq!(out, format!(">{}", n));
        let chars: Vec<char> = out.chars().collect();
        assert_eq!(parse_decimal_range(&chars, 1, chars.len(), u64::MAX), Some(n));
    }
    let chars: Vec<char> = "x123y".chars().collect();
    assert_eq!(parse_decimal_range(&chars, 1, 4, 123), Some(123));
    assert_eq!(parse_decimal_range(&chars, 1, 4, 122), None);
    assert_eq!(parse_decimal_range(&chars, 1, 1, 122), None);
    assert_eq!(parse_decimal_range(&chars, 0, 4, 1000), None);
    assert_eq!(parse_decimal_range(&chars, 1, 5, 1000), None);
}
