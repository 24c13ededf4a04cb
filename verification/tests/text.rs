use opcua_node_id::{ByteString, Guid, Identifier, NodeId, StatusCode, UAString};
use regex::Regex;

fn parsed(s: &str) -> NodeId {
    NodeId::from_str(s).unwrap()
}

#[test]
fn parses_a_number_without_namespace() {
    assert_eq!(parsed("i=2253"), NodeId::new(0, 2253u32));
}

#[test]
fn parses_a_text_with_namespace() {
    assert_eq!(parsed("ns=2;s=Temperature"), NodeId::new(2, "Temperature"));
}

#[test]
fn namespace_0_is_not_written() {
    assert_eq!(parsed("ns=0;i=1"), parsed("i=1"));
    assert_eq!(parsed("ns=0;i=1").to_string(), "i=1");
    assert_eq!(parsed("i=1").to_string(), "i=1");
}

#[test]
fn formats_each_kind() {
    assert_eq!(NodeId::new(0, 2253u32).to_string(), "i=2253");
    assert_eq!(NodeId::new(0, 0u32).to_string(), "i=0");
    assert_eq!(NodeId::new(65535, u32::MAX).to_string(), "ns=65535;i=4294967295");
    assert_eq!(NodeId::new(2, "Temperature").to_string(), "ns=2;s=Temperature");
    assert_eq!(NodeId::new(1, UAString::null()).to_string(), "ns=1;s=");
    assert_eq!(NodeId::new(1, "").to_string(), "ns=1;s=");
    assert_eq!(
        NodeId::new(1, Guid::from_bytes([
            0x72, 0x96, 0x2b, 0x91, 0xfa, 0x75, 0x4a, 0xe6, 0x8d, 0x28, 0xb4, 0x04, 0xdc, 0x7d,
            0xaf, 0x63
        ]))
        .to_string(),
        "ns=1;g=72962b91-fa75-4ae6-8d28-b404dc7daf63"
    );
    assert_eq!(
        NodeId::new(1, ByteString::from(b"hello world".to_vec())).to_string(),
        "ns=1;b=aGVsbG8gd29ybGQ="
    );
    assert_eq!(NodeId::new(0, ByteString::null()).to_string(), "b=");
}

#[test]
fn string_from_node_id() {
    let s: String = NodeId::new(3, 15u32).into();
    assert_eq!(s, "ns=3;i=15");
}

#[test]
fn parses_a_guid_in_either_case() {
    let lower = parsed("ns=1;g=72962b91-fa75-4ae6-8d28-b404dc7daf63");
    let upper = parsed("ns=1;g=72962B91-FA75-4AE6-8D28-B404DC7DAF63");
    assert_eq!(lower, upper);
    assert_eq!(
        lower,
        NodeId::new(1, Guid::from_bytes([
            0x72, 0x96, 0x2b, 0x91, 0xfa, 0x75, 0x4a, 0xe6, 0x8d, 0x28, 0xb4, 0x04, 0xdc, 0x7d,
            0xaf, 0x63
        ]))
    );
}

#[test]
fn parses_bytes_in_base64() {
    assert_eq!(
        parsed("ns=1;b=aGVsbG8gd29ybGQ="),
        NodeId::new(1, ByteString::from(b"hello world".to_vec()))
    );
    assert_eq!(parsed("b=AA=="), NodeId::new(0, ByteString::from(vec![0u8])));
    assert_eq!(parsed("b=AAE="), NodeId::new(0, ByteString::from(vec![0u8, 1])));
    assert_eq!(parsed("b=AAEC"), NodeId::new(0, ByteString::from(vec![0u8, 1, 2])));
    assert_eq!(parsed("b=+/+/"), NodeId::new(0, ByteString::from(vec![0xfbu8, 0xff, 0xbf])));
}

#[test]
fn base64_of_each_length() {
    for (bytes, text) in [
        (&b""[..], ""),
        (&b"f"[..], "Zg=="),
        (&b"fo"[..], "Zm8="),
        (&b"foo"[..], "Zm9v"),
        (&b"foob"[..], "Zm9vYg=="),
        (&b"fooba"[..], "Zm9vYmE="),
        (&b"foobar"[..], "Zm9vYmFy"),
    ] {
        let id = Identifier::ByteString(ByteString::from(bytes.to_vec()));
        assert_eq!(id.to_string(), format!("b={}", text));
        assert_eq!(Identifier::parse(&format!("b={}", text)), Some(id));
    }
}

#[test]
fn malformed_base64_is_refused() {
    for s in [
        "b=A", "b=AA", "b=AAA", "b=AA=", "b=A===", "b=AB==", "b=AAB=", "b=AA==AAAA", "b=AA=A",
        "b=AAA*", "b=AAAA=", "b= AAA", "b=AAAA\u{e9}AAA",
    ] {
        assert_eq!(NodeId::from_str(s), Err(StatusCode::BadNodeIdInvalid), "{}", s);
    }
}

#[test]
fn malformed_guid_is_refused() {
    for s in [
        "g=72962b91-fa75-4ae6-8d28-b404dc7daf6",
        "g=72962b91-fa75-4ae6-8d28-b404dc7daf633",
        "g=72962b91fa754ae68d28b404dc7daf63",
        "g=72962b91-fa75-4ae6-8d28_b404dc7daf63",
        "g=72962b91-fa75-4ae6-8d28-b404dc7daf6g",
        "g={72962b91-fa75-4ae6-8d28-b404dc7daf63}",
        "g=7296-2b91fa75-4ae6-8d28-b404dc7daf63",
    ] {
        assert_eq!(NodeId::from_str(s), Err(StatusCode::BadNodeIdInvalid), "{}", s);
    }
}

#[test]
fn numbers_out_of_range_are_refused() {
    assert_eq!(parsed("i=4294967295"), NodeId::new(0, u32::MAX));
    assert_eq!(NodeId::from_str("i=4294967296"), Err(StatusCode::BadNodeIdInvalid));
    assert_eq!(
        NodeId::from_str("i=99999999999999999999999999999999999999999"),
        Err(StatusCode::BadNodeIdInvalid)
    );
    assert_eq!(parsed("ns=65535;i=1"), NodeId::new(65535, 1u32));
    assert_eq!(NodeId::from_str("ns=65536;i=1"), Err(StatusCode::BadNodeIdInvalid));
}

#[test]
fn leading_zeros_are_accepted() {
    assert_eq!(parsed("ns=007;i=0010"), NodeId::new(7, 10u32));
    assert_eq!(parsed("ns=007;i=0010").to_string(), "ns=7;i=10");
}

#[test]
fn text_is_taken_as_it_is() {
    assert_eq!(parsed("s=ns=1;i=5"), NodeId::new(0, "ns=1;i=5"));
    assert_eq!(parsed("ns=1;s= a;b=c "), NodeId::new(1, " a;b=c "));
    assert_eq!(parsed("s=[null]"), NodeId::new(0, "[null]"));
    assert_eq!(parsed("s=gr\u{fc}\u{df}e"), NodeId::new(0, "gr\u{fc}\u{df}e"));
}

#[test]
fn invalid_syntax_is_refused() {
    for s in [
        "", "i", "i=", "s=", "g=", "b=", "x=1", "I=1", "i=-1", "i=+1", "i=1 ", " i=1", "i=1a",
        "i=0x10", "ns=1", "ns=1;", "ns=;i=1", "ns=a;i=1", "ns=-1;i=1", "ns=+1;i=1", "ns=1,i=1",
        "ns=1;;i=1", "ns=1;ns=2;i=1", "Ns=1;i=1", "ns=1;x=1", "ns=1;i=", "s=a\nb", "s=\n",
        "ns=1;s=line\n", "i=1\n", "i= 1",
    ] {
        assert_eq!(NodeId::from_str(s), Err(StatusCode::BadNodeIdInvalid), "{:?}", s);
    }
}

#[test]
fn textual_round_trip() {
    for id in [
        NodeId::new(0, 0u32),
        NodeId::new(0, 9u32),
        NodeId::new(0, 10u32),
        NodeId::new(1, 1234567890u32),
        NodeId::new(65535, u32::MAX),
        NodeId::new(2, "Temperature"),
        NodeId::new(0, "a"),
        NodeId::new(3, "x=y;z"),
        NodeId::new(3, Guid::null()),
        NodeId::new(0, Guid::parse("01234567-89ab-cdef-fedc-ba9876543210").unwrap()),
        NodeId::new(9, ByteString::from(vec![1u8])),
        NodeId::new(9, ByteString::from(vec![1u8, 2])),
        NodeId::new(9, ByteString::from(vec![1u8, 2, 3])),
        NodeId::new(9, ByteString::from((0u8..=255).collect::<Vec<u8>>())),
    ] {
        assert_eq!(NodeId::from_str(&id.to_string()), Ok(id.clone()), "{:?}", id);
    }
}

#[test]
fn values_without_a_textual_form_do_not_come_back() {
    assert!(NodeId::from_str(&NodeId::new(0, "").to_string()).is_err());
    assert!(NodeId::from_str(&NodeId::new(0, "a\nb").to_string()).is_err());
    assert!(NodeId::from_str(&NodeId::new(0, ByteString::null()).to_string()).is_err());
    assert!(NodeId::from_str(&NodeId::new(0, ByteString::from(Vec::new())).to_string()).is_err());
    assert!(NodeId::from_str(&NodeId::new(0, UAString::null()).to_string()).is_err());
}

#[test]
fn identifier_parses_alone() {
    assert_eq!(Identifier::parse("i=5"), Some(Identifier::Numeric(5)));
    assert_eq!(Identifier::parse("s="), Some(Identifier::from("")));
    assert_eq!(Identifier::parse("b="), Some(Identifier::ByteString(ByteString::from(Vec::new()))));
    assert_eq!(Identifier::parse("ns=1;i=5"), None);
    assert_eq!(Identifier::parse("i"), None);
    assert_eq!(Identifier::Numeric(77).to_string(), "i=77");
}

#[test]
fn guid_text() {
    assert_eq!(Guid::null().to_string(), "00000000-0000-0000-0000-000000000000");
    assert!(Guid::null().is_null());
    let guid = Guid::parse("01234567-89AB-CDEF-fedc-ba9876543210").unwrap();
    assert!(!guid.is_null());
    assert_eq!(
        guid.as_bytes(),
        &[
            0x01, 0x23, 0x45, 0x67, 0x89, 0xab, 0xcd, 0xef, 0xfe, 0xdc, 0xba, 0x98, 0x76, 0x54,
            0x32, 0x10
        ]
    );
    assert_eq!(guid.to_string(), "01234567-89ab-cdef-fedc-ba9876543210");
    assert_eq!(Guid::parse(""), None);
}

#[test]
fn accepts_what_the_pattern_of_the_grammar_matches() {
    let pattern = Regex::new(r"^(ns=(?P<ns>[0-9]+);)?(?P<t>[isgb]=.+)$").unwrap();
    for s in [
        "i=1", "ns=1;i=1", "ns=0;i=1", "ns=65535;s=a", "ns=65536;s=a", "s=a", "s=", "s=\n",
        "s=a\nb", "i=1\n", "\ni=1", "ns=1;s=;", "ns=1;;s=a", "ns=;s=a", "ns=1s=a", "g=x", "b=x",
        "x=1", "", "ns=", "ns=1;", "s=ns=1;i=2", "ns=01;s=x", "ns=1;s=\u{e9}", "ns=\u{661};s=a",
        "ns=1;S=a", "s=\r", "s=\u{2028}",
    ] {
        let ours = NodeId::from_str(s);
        match pattern.captures(s) {
            None => assert!(ours.is_err(), "{:?}", s),
            Some(captures) => {
                let namespace = match captures.name("ns") {
                    Some(ns) => ns.as_str().parse::<u16>().ok(),
                    None => Some(0),
                };
                let typed = captures.name("t").unwrap().as_str();
                if typed.starts_with("s=") {
                    match namespace {
                        Some(namespace) => {
                            assert_eq!(ours, Ok(NodeId::new(namespace, &typed[2..])), "{:?}", s)
                        }
                        None => assert!(ours.is_err(), "{:?}", s),
                    }
                } else if namespace.is_none() {
                    assert!(ours.is_err(), "{:?}", s);
                }
            }
        }
    }
}

#[test]
fn parses_through_the_standard_trait() {
    assert_eq!("ns=2;s=Temperature".parse::<NodeId>(), Ok(NodeId::new(2, "Temperature")));
    assert_eq!("ns=2;".parse::<NodeId>(), Err(StatusCode::BadNodeIdInvalid));
    assert_eq!("i=5".parse::<Identifier>(), Ok(Identifier::Numeric(5)));
    assert_eq!("5".parse::<Identifier>(), Err(()));
}
