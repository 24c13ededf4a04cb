//! A hash of node identifiers that the owned and the borrowing form share,
//! for collections that are keyed by one and searched with the other.

use crate::encoding::{u16_le, u32_le};
use crate::id_ref::{IdentifierRef, NodeIdRef};
use crate::identifier::IdentifierModel;
use crate::node_id::{NodeId, NodeIdModel};
use std::collections::hash_map::DefaultHasher;
use std::hash::Hasher;
use vstd::prelude::*;
use vstd::std_specs::hash::DefaultHasherAdditionalSpecFns;
use vstd::utf8::encode_utf8;

verus! {

/// What is written to a hasher for a sequence of bytes that may be absent:
/// one byte that tells whether it is present, then the bytes.
pub open spec fn optional_hash_input(bytes: Option<Seq<u8>>) -> Seq<Seq<u8>> {
    match bytes {
        None => seq![seq![0u8]],
        Some(b) => seq![seq![1u8], b],
    }
}

/// What is written to a hasher for an identifier: a byte for its kind, then
/// its value, a text as its UTF-8 bytes.
pub open spec fn identifier_hash_input(id: IdentifierModel) -> Seq<Seq<u8>> {
    match id {
        IdentifierModel::Numeric(value) => seq![seq![0u8], u32_le(value)],
        IdentifierModel::String(text) => seq![seq![1u8]] + optional_hash_input(
            match text {
                Some(chars) => Some(encode_utf8(chars)),
                None => None,
            },
        ),
        IdentifierModel::Guid(guid) => seq![seq![2u8], guid],
        IdentifierModel::ByteString(blob) => seq![seq![3u8]] + optional_hash_input(blob),
    }
}

/// What is written to a hasher for a node identifier: its namespace, then
/// its identifier.
pub open spec fn node_id_hash_input(id: NodeIdModel) -> Seq<Seq<u8>> {
    seq![u16_le(id.namespace)] + identifier_hash_input(id.identifier)
}

/// The hash of a node identifier: what the default hasher of the standard
/// library makes of what is written to it for the identifier.
pub open spec fn node_id_hash(id: NodeIdModel) -> u64 {
    DefaultHasher::spec_finish(node_id_hash_input(id))
}

/// An owned and a borrowing node identifier that are the same value have
/// the same hash.
pub proof fn lemma_forms_hash_alike(owned: NodeId, borrowed: NodeIdRef)
    requires
        owned@ == borrowed@,
    ensures
        node_id_hash(owned@) == node_id_hash(borrowed@),
{
}

/// Writes one byte to `state`.
fn feed_byte(state: &mut DefaultHasher, byte: u8)
    ensures
        final(state)@ == old(state)@.push(seq![byte]),
{
    let bytes: [u8; 1] = [byte];
    assert(bytes@ =~= seq![byte]);
    state.write(bytes.as_slice());
}

/// Writes to `state` what stands for bytes that may be absent.
fn feed_optional(state: &mut DefaultHasher, bytes: Option<&[u8]>)
    ensures
        final(state)@ == old(state)@ + optional_hash_input(
            match bytes {
                Some(b) => Some(b@),
                None => None,
            },
        ),
{
    match bytes {
        None => {
            feed_byte(state, 0);
            assert(state@ =~= old(state)@ + seq![seq![0u8]]);
        },
        Some(b) => {
            feed_byte(state, 1);
            state.write(b);
            assert(state@ =~= old(state)@ + seq![seq![1u8], b@]);
        },
    }
}

impl<'a> IdentifierRef<'a> {
    /// Writes to `state` what stands for the identifier.
    pub fn feed(&self, state: &mut DefaultHasher)
        ensures
            final(state)@ == old(state)@ + identifier_hash_input(self@),
    {
        match self {
            IdentifierRef::Numeric(value) => {
                feed_byte(state, 0);
                let v = *value;
                let bytes: [u8; 4] = [
                    (v % 256) as u8,
                    (v / 256 % 256) as u8,
                    (v / 65536 % 256) as u8,
                    (v / 16777216) as u8,
                ];
                assert(bytes@ =~= u32_le(v));
                state.write(bytes.as_slice());
            },
            IdentifierRef::String(text) => {
                feed_byte(state, 1);
                feed_optional(
                    state,
                    match text {
                        Some(s) => Some(s.as_bytes()),
                        None => None,
                    },
                );
            },
            IdentifierRef::Guid(guid) => {
                feed_byte(state, 2);
                state.write(guid.bytes.as_slice());
            },
            IdentifierRef::ByteString(blob) => {
                feed_byte(state, 3);
                feed_optional(state, *blob);
            },
        }
        assert(state@ =~= old(state)@ + identifier_hash_input(self@));
    }
}

impl<'a> NodeIdRef<'a> {
    /// Writes to `state` what stands for the node identifier.
    pub fn feed(&self, state: &mut DefaultHasher)
        ensures
            final(state)@ == old(state)@ + node_id_hash_input(self@),
    {
        let ns = self.namespace;
        let bytes: [u8; 2] = [(ns % 256) as u8, (ns / 256) as u8];
        assert(bytes@ =~= u16_le(ns));
        state.write(bytes.as_slice());
        self.identifier.feed(state);
        assert(state@ =~= old(state)@ + node_id_hash_input(self@));
    }

    /// The hash of the node identifier.
    pub fn hash_code(&self) -> (hash: u64)
        ensures
            hash == node_id_hash(self@),
    {
        let mut state = DefaultHasher::new();
        self.feed(&mut state);
        assert(state@ =~= node_id_hash_input(self@));
        state.finish()
    }
}

impl NodeId {
    /// The hash of the node identifier, which is that of its borrowing
    /// form.
    pub fn hash_code(&self) -> (hash: u64)
        ensures
            hash == node_id_hash(self@),
    {
        self.as_node_id_ref().hash_code()
    }
}

} // verus!
