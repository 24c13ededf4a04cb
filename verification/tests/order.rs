use opcua_node_id::order::{compare_bytes, compare_node_ids, Order};
use opcua_node_id::{ByteString, Guid, Identifier, NodeId, UAString};
use std::cmp::Ordering;
use std::collections::BTreeMap;

fn samples() -> Vec<NodeId> {
    vec![
        NodeId::new(0, 0u32),
        NodeId::new(0, 1u32),
        NodeId::new(0, u32::MAX),
        NodeId::new(0, UAString::null()),
        NodeId::new(0, ""),
        NodeId::new(0, "A"),
        NodeId::new(0, "a"),
        NodeId::new(0, "a\u{0}"),
        NodeId::new(0, "ab"),
        NodeId::new(0, "b"),
        NodeId::new(0, "z"),
        NodeId::new(0, "\u{e9}"),
        NodeId::new(0, "\u{ffff}"),
        NodeId::new(0, "\u{10000}"),
        NodeId::new(0, Guid::null()),
        NodeId::new(0, Guid::from_bytes([0, 0, 0, 0, 0, 0, 0, 0, 0, 0, 0, 0, 0, 0, 0, 1])),
        NodeId::new(0, Guid::from_bytes([1, 0, 0, 0, 0, 0, 0, 0, 0, 0, 0, 0, 0, 0, 0, 0])),
        NodeId::new(0, Guid::from_bytes([255; 16])),
        NodeId::new(0, ByteString::null()),
        NodeId::new(0, ByteString::from(Vec::new())),
        NodeId::new(0, ByteString::from(vec![0u8])),
        NodeId::new(0, ByteString::from(vec![0u8, 0])),
        NodeId::new(0, ByteString::from(vec![0u8, 255])),
        NodeId::new(0, ByteString::from(vec![1u8])),
        NodeId::new(0, ByteString::from(vec![255u8])),
        NodeId::new(1, 0u32),
        NodeId::new(1, "a"),
        NodeId::new(65535, 0u32),
        NodeId::new(65535, ByteString::from(vec![255u8])),
    ]
}

#[test]
fn samples_stand_in_ascending_order() {
    let ids = samples();
    for i in 0..ids.len() {
        for j in 0..ids.len() {
            assert_eq!(ids[i].partial_cmp(&ids[j]), Some(i.cmp(&j)), "{:?} {:?}", ids[i], ids[j]);
        }
    }
}

#[test]
fn comparison_agrees_with_the_order_of_keys() {
    let ids = samples();
    for a in &ids {
        for b in &ids {
            assert_eq!(a.partial_cmp(b), Some(a.cmp(b)), "{:?} {:?}", a, b);
            assert_eq!(
                a.identifier.partial_cmp(&b.identifier),
                Some(a.identifier.cmp(&b.identifier))
            );
            assert_eq!(a < b, a.cmp(b) == Ordering::Less);
        }
    }
}

#[test]
fn borrowed_forms_stand_as_the_owned_ones() {
    let ids = samples();
    for a in &ids {
        for b in &ids {
            let (ra, rb) = (a.as_node_id_ref(), b.as_node_id_ref());
            assert_eq!(ra.partial_cmp(&rb), a.partial_cmp(b));
            assert_eq!(ra.cmp(&rb), a.cmp(b));
            assert_eq!(ra.identifier.partial_cmp(&rb.identifier), Some(a.identifier.cmp(&b.identifier)));
            let expected = match a.cmp(b) {
                Ordering::Less => Order::Less,
                Ordering::Equal => Order::Equal,
                Ordering::Greater => Order::Greater,
            };
            assert_eq!(compare_node_ids(&ra, &rb), expected);
        }
    }
}

#[test]
fn values_stand_as_in_the_standard_library() {
    let texts = [None, Some(""), Some("a"), Some("ab"), Some("b"), Some("\u{e9}")];
    for a in texts {
        for b in texts {
            let (x, y) = (
                a.map_or(UAString::null(), UAString::from),
                b.map_or(UAString::null(), UAString::from),
            );
            assert_eq!(x.partial_cmp(&y), Some(a.cmp(&b)));
            assert_eq!(x.cmp(&y), a.cmp(&b));
        }
    }
    let blobs: [Option<&[u8]>; 5] = [None, Some(&[]), Some(&[0]), Some(&[0, 1]), Some(&[1])];
    for a in blobs {
        for b in blobs {
            let (x, y) = (
                a.map_or(ByteString::null(), |v| ByteString::from(v.to_vec())),
                b.map_or(ByteString::null(), |v| ByteString::from(v.to_vec())),
            );
            assert_eq!(x.partial_cmp(&y), Some(a.cmp(&b)));
            assert_eq!(x.cmp(&y), a.cmp(&b));
        }
    }
    let low = Guid::from_bytes([0, 0, 0, 0, 0, 0, 0, 0, 0, 0, 0, 0, 0, 0, 1, 0]);
    let high = Guid::from_bytes([0, 0, 0, 0, 0, 0, 0, 0, 0, 0, 0, 0, 0, 1, 0, 0]);
    assert_eq!(low.partial_cmp(&high), Some(Ordering::Less));
    assert_eq!(high.partial_cmp(&low), Some(Ordering::Greater));
    assert_eq!(low.partial_cmp(&low), Some(Ordering::Equal));
    assert_eq!(low.cmp(&high), Ordering::Less);
}

#[test]
fn bytes_stand_as_words_in_a_dictionary() {
    assert_eq!(compare_bytes(&[], &[]), Order::Equal);
    assert_eq!(compare_bytes(&[], &[0]), Order::Less);
    assert_eq!(compare_bytes(&[0], &[]), Order::Greater);
    assert_eq!(compare_bytes(&[1, 2], &[1, 2]), Order::Equal);
    assert_eq!(compare_bytes(&[1, 2], &[1, 3]), Order::Less);
    assert_eq!(compare_bytes(&[1, 2, 0], &[1, 3]), Order::Less);
    assert_eq!(compare_bytes(&[2], &[1, 255]), Order::Greater);
    assert_eq!(compare_bytes(&[1, 2], &[1, 2, 0]), Order::Less);
}

#[test]
fn node_ids_are_keys_of_a_sorted_map() {
    let mut map = BTreeMap::new();
    for (i, id) in samples().into_iter().rev().enumerate() {
        map.insert(id, i);
    }
    let keys: Vec<NodeId> = map.keys().cloned().collect();
    assert_eq!(keys, samples());
    assert_eq!(map.get(&NodeId::new(0, "ab")), Some(&(samples().len() - 1 - 8)));
    assert_eq!(map.get(&NodeId::new(2, "ab")), None);
    assert!(Identifier::from(1u32) < Identifier::from(""));
}
