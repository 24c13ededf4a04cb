use opcua_node_id::{ByteReader, ByteString, Context, DecodeError, Guid, NodeId, UAString};

fn encoded(id: &NodeId) -> Vec<u8> {
    let ctx = Context::default();
    let mut stream = Vec::new();
    id.encode(&mut stream, &ctx).unwrap();
    assert_eq!(id.byte_len(&ctx), stream.len());
    stream
}

fn decoded(bytes: &[u8]) -> Result<NodeId, DecodeError> {
    let ctx = Context::default();
    let mut reader = ByteReader::new(bytes);
    NodeId::decode(&mut reader, &ctx)
}

fn round_trip(id: NodeId) {
    let bytes = encoded(&id);
    let ctx = Context::default();
    let mut reader = ByteReader::new(&bytes);
    let back = NodeId::decode(&mut reader, &ctx).unwrap();
    assert_eq!(back, id);
    assert_eq!(reader.len(), 0);
}

#[test]
fn two_byte_layout_up_to_255_in_namespace_0() {
    assert_eq!(encoded(&NodeId::new(0, 255u32)), vec![0x00, 0xff]);
    assert_eq!(encoded(&NodeId::new(0, 0u32)), vec![0x00, 0x00]);
}

#[test]
fn four_byte_layout_from_256_on() {
    assert_eq!(encoded(&NodeId::new(0, 256u32)), vec![0x01, 0x00, 0x00, 0x01]);
    assert_eq!(encoded(&NodeId::new(1, 0u32)), vec![0x01, 0x01, 0x00, 0x00]);
}

#[test]
fn four_byte_layout_at_its_upper_bounds() {
    assert_eq!(encoded(&NodeId::new(255, 65535u32)), vec![0x01, 0xff, 0xff, 0xff]);
}

#[test]
fn seven_byte_layout_for_a_large_namespace() {
    assert_eq!(
        encoded(&NodeId::new(256, 0u32)),
        vec![0x02, 0x00, 0x01, 0x00, 0x00, 0x00, 0x00]
    );
}

#[test]
fn seven_byte_layout_for_a_large_number() {
    assert_eq!(
        encoded(&NodeId::new(0, 65536u32)),
        vec![0x02, 0x00, 0x00, 0x00, 0x00, 0x01, 0x00]
    );
    assert_eq!(
        encoded(&NodeId::new(0x1234, 0x89ab_cdefu32)),
        vec![0x02, 0x34, 0x12, 0xef, 0xcd, 0xab, 0x89]
    );
}

#[test]
fn text_layout() {
    assert_eq!(
        encoded(&NodeId::new(2, "Hi")),
        vec![0x03, 0x02, 0x00, 0x02, 0x00, 0x00, 0x00, b'H', b'i']
    );
    assert_eq!(
        encoded(&NodeId::new(1, UAString::null())),
        vec![0x03, 0x01, 0x00, 0xff, 0xff, 0xff, 0xff]
    );
    assert_eq!(
        encoded(&NodeId::new(1, "")),
        vec![0x03, 0x01, 0x00, 0x00, 0x00, 0x00, 0x00]
    );
}

#[test]
fn text_layout_counts_bytes_not_characters() {
    assert_eq!(
        encoded(&NodeId::new(0, "\u{e9}")),
        vec![0x03, 0x00, 0x00, 0x02, 0x00, 0x00, 0x00, 0xc3, 0xa9]
    );
}

#[test]
fn guid_layout_reverses_the_first_three_groups() {
    let guid = Guid::parse("72962b91-fa75-4ae6-8d28-b404dc7daf63").unwrap();
    assert_eq!(
        encoded(&NodeId::new(3, guid)),
        vec![
            0x04, 0x03, 0x00, 0x91, 0x2b, 0x96, 0x72, 0x75, 0xfa, 0xe6, 0x4a, 0x8d, 0x28, 0xb4,
            0x04, 0xdc, 0x7d, 0xaf, 0x63
        ]
    );
}

#[test]
fn byte_string_layout() {
    assert_eq!(
        encoded(&NodeId::new(4, ByteString::from(vec![9u8, 8, 7]))),
        vec![0x05, 0x04, 0x00, 0x03, 0x00, 0x00, 0x00, 9, 8, 7]
    );
    assert_eq!(
        encoded(&NodeId::new(4, ByteString::null())),
        vec![0x05, 0x04, 0x00, 0xff, 0xff, 0xff, 0xff]
    );
}

#[test]
fn binary_round_trip_of_numbers() {
    for (ns, value) in [
        (0u16, 0u32),
        (0, 255),
        (0, 256),
        (0, 65535),
        (0, 65536),
        (1, 0),
        (255, 65535),
        (255, 65536),
        (256, 0),
        (65535, u32::MAX),
    ] {
        round_trip(NodeId::new(ns, value));
    }
}

#[test]
fn binary_round_trip_of_the_other_kinds() {
    round_trip(NodeId::new(2, "Temperature"));
    round_trip(NodeId::new(2, "gr\u{fc}\u{df}e \u{20ac} \u{1f600}"));
    round_trip(NodeId::new(2, ""));
    round_trip(NodeId::new(2, UAString::null()));
    round_trip(NodeId::new(7, Guid::null()));
    round_trip(NodeId::new(7, Guid::parse("72962b91-fa75-4ae6-8d28-b404dc7daf63").unwrap()));
    round_trip(NodeId::new(9, ByteString::from(vec![0u8, 1, 2, 255])));
    round_trip(NodeId::new(9, ByteString::from(Vec::new())));
    round_trip(NodeId::new(9, ByteString::null()));
}

#[test]
fn text_is_decoded_from_utf8() {
    assert_eq!(
        decoded(&[0x03, 0x01, 0x00, 5, 0, 0, 0, 0xc3, 0xa9, 0xe2, 0x82, 0xac]),
        Ok(NodeId::new(1, "\u{e9}\u{20ac}"))
    );
}

#[test]
fn decoding_leaves_what_follows() {
    let ctx = Context::default();
    let bytes = [0x00, 0x07, 0xaa, 0xbb];
    let mut reader = ByteReader::new(&bytes);
    assert_eq!(NodeId::decode(&mut reader, &ctx).unwrap(), NodeId::new(0, 7u32));
    assert_eq!(reader.len(), 2);
    assert_eq!(reader.read_u8(), Ok(0xaa));
}

#[test]
fn unknown_tag_is_refused_and_nothing_more_is_read() {
    let ctx = Context::default();
    let bytes = [0x06, 0x01, 0x02, 0x03];
    let mut reader = ByteReader::new(&bytes);
    assert_eq!(
        NodeId::decode(&mut reader, &ctx),
        Err(DecodeError::MalformedTag(0x06))
    );
    assert_eq!(reader.len(), 3);
    assert_eq!(decoded(&[0xff]), Err(DecodeError::MalformedTag(0xff)));
}

#[test]
fn truncated_input_is_refused() {
    assert_eq!(decoded(&[]), Err(DecodeError::Truncated));
    assert_eq!(decoded(&[0x00]), Err(DecodeError::Truncated));
    assert_eq!(decoded(&[0x01, 0x01, 0x00]), Err(DecodeError::Truncated));
    assert_eq!(decoded(&[0x02, 0, 0, 1, 2, 3]), Err(DecodeError::Truncated));
    assert_eq!(decoded(&[0x03, 0, 0, 2, 0, 0, 0, b'a']), Err(DecodeError::Truncated));
    assert_eq!(decoded(&[0x04, 0, 0, 1, 2, 3]), Err(DecodeError::Truncated));
    assert_eq!(decoded(&[0x05, 0, 0, 1, 0, 0]), Err(DecodeError::Truncated));
}

#[test]
fn negative_length_is_refused() {
    assert_eq!(
        decoded(&[0x03, 0, 0, 0xfe, 0xff, 0xff, 0xff]),
        Err(DecodeError::InvalidLength)
    );
    assert_eq!(
        decoded(&[0x05, 0, 0, 0x00, 0x00, 0x00, 0x80]),
        Err(DecodeError::InvalidLength)
    );
}

#[test]
fn length_over_the_limit_is_refused() {
    let ctx = Context::new(3, 2);
    let text = [0x03, 0, 0, 4, 0, 0, 0, b'a', b'b', b'c', b'd'];
    let mut reader = ByteReader::new(&text);
    assert_eq!(
        NodeId::decode(&mut reader, &ctx),
        Err(DecodeError::LengthExceedsLimit)
    );
    let blob = [0x05, 0, 0, 3, 0, 0, 0, 1, 2, 3];
    let mut reader = ByteReader::new(&blob);
    assert_eq!(
        NodeId::decode(&mut reader, &ctx),
        Err(DecodeError::LengthExceedsLimit)
    );
    let short = [0x03, 0, 0, 3, 0, 0, 0, b'a', b'b', b'c'];
    let mut reader = ByteReader::new(&short);
    assert_eq!(NodeId::decode(&mut reader, &ctx).unwrap(), NodeId::new(0, "abc"));
    let hostile = [0x03, 0, 0, 0xff, 0xff, 0xff, 0x7f];
    let mut reader = ByteReader::new(&hostile);
    assert_eq!(
        NodeId::decode(&mut reader, &Context::default()),
        Err(DecodeError::LengthExceedsLimit)
    );
}

#[test]
fn text_that_is_not_utf8_is_refused() {
    assert_eq!(
        decoded(&[0x03, 0, 0, 2, 0, 0, 0, 0xc3, 0x28]),
        Err(DecodeError::InvalidText)
    );
}

#[test]
fn default_context_limits() {
    let ctx = Context::default();
    assert_eq!(ctx.max_string_length, 65535);
    assert_eq!(ctx.max_byte_string_length, 65535);
}

#[test]
fn bytes_needed_before_decoding_can_go_on() {
    let ctx = Context::new(10, 5);
    assert_eq!(NodeId::bytes_needed(&[], &ctx), 1);
    assert_eq!(NodeId::bytes_needed(&[0], &ctx), 2);
    assert_eq!(NodeId::bytes_needed(&[0, 9], &ctx), 2);
    assert_eq!(NodeId::bytes_needed(&[1], &ctx), 4);
    assert_eq!(NodeId::bytes_needed(&[2, 0, 0], &ctx), 7);
    assert_eq!(NodeId::bytes_needed(&[4], &ctx), 19);
    assert_eq!(NodeId::bytes_needed(&[3, 0, 0], &ctx), 7);
    assert_eq!(NodeId::bytes_needed(&[3, 0, 0, 10, 0, 0, 0], &ctx), 17);
    assert_eq!(NodeId::bytes_needed(&[3, 0, 0, 11, 0, 0, 0], &ctx), 7);
    assert_eq!(NodeId::bytes_needed(&[3, 0, 0, 0xff, 0xff, 0xff, 0xff], &ctx), 7);
    assert_eq!(NodeId::bytes_needed(&[3, 0, 0, 0xfe, 0xff, 0xff, 0xff], &ctx), 7);
    assert_eq!(NodeId::bytes_needed(&[5, 0, 0, 5, 0, 0, 0, 1], &ctx), 12);
    assert_eq!(NodeId::bytes_needed(&[5, 0, 0, 6, 0, 0, 0, 1], &ctx), 7);
    assert_eq!(NodeId::bytes_needed(&[6], &ctx), 1);
    assert_eq!(NodeId::bytes_needed(&[255, 1, 2], &ctx), 1);
}

#[test]
fn reading_just_what_is_needed_decodes_every_value() {
    let ctx = Context::default();
    for id in [
        NodeId::new(0, 7u32),
        NodeId::new(7, 7u32),
        NodeId::new(700, 7u32),
        NodeId::new(2, "Temperature"),
        NodeId::new(2, UAString::null()),
        NodeId::new(7, Guid::null()),
        NodeId::new(9, ByteString::from(vec![0u8, 1, 2, 255])),
    ] {
        let mut bytes = encoded(&id);
        let full = bytes.len();
        bytes.extend_from_slice(&[0xaa, 0xbb]);
        let mut have = 0;
        loop {
            let needed = NodeId::bytes_needed(&bytes[..have], &ctx);
            if needed <= have {
                break;
            }
            assert_eq!(decoded(&bytes[..have]), Err(DecodeError::Truncated));
            assert_eq!(decoded(&bytes[..needed - 1]), Err(DecodeError::Truncated));
            have = needed;
        }
        assert_eq!(have, full);
        assert_eq!(decoded(&bytes[..have]), Ok(id));
    }
}
