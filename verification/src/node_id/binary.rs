//! The binary form of a node identifier: the shortest of the layouts that
//! the protocol has for it.

use crate::byte_string::{blob_byte_count, blob_encoding, decode_blob};
use crate::byte_string::{lemma_blob_encoding_round_trip, ByteString};
use crate::encoding::{i32_from_le, lemma_u16_le_round_trip, lemma_u32_le_round_trip};
use crate::encoding::{u16_from_le, u16_le, u32_from_le, u32_le, write_u16, write_u32, write_u8};
use crate::encoding::{ByteReader, Context, DecodeError, Decoded, EncodeError};
use crate::guid::{decode_guid, guid_swap, lemma_guid_encoding_round_trip, Guid};
use crate::identifier::{Identifier, IdentifierModel};
use crate::node_id::{NodeId, NodeIdModel};
use crate::string::{decode_text, lemma_text_encoding_round_trip, text_byte_count};
use crate::string::{text_encoding, UAString};
use vstd::prelude::*;
use vstd::slice::slice_subrange;
use vstd::utf8::decode_utf8_encode_utf8;

verus! {

/// The binary form of a node identifier: a tag byte that tells the layout,
/// then the namespace and the identifier as that layout has them. A number
/// takes the shortest of three layouts that can hold it and its namespace.
pub open spec fn node_id_encoding(id: NodeIdModel) -> Seq<u8> {
    match id.identifier {
        IdentifierModel::Numeric(value) => {
            if id.namespace == 0 && value <= 255 {
                seq![0u8, value as u8]
            } else if id.namespace <= 255 && value <= 65535 {
                seq![1u8, id.namespace as u8] + u16_le(value as u16)
            } else {
                seq![2u8] + u16_le(id.namespace) + u32_le(value)
            }
        },
        IdentifierModel::String(text) => seq![3u8] + u16_le(id.namespace) + text_encoding(text),
        IdentifierModel::Guid(guid) => seq![4u8] + u16_le(id.namespace) + guid_swap(guid),
        IdentifierModel::ByteString(blob) => seq![5u8] + u16_le(id.namespace) + blob_encoding(
            blob,
        ),
    }
}

/// The number of bytes of the binary form of a node identifier.
pub open spec fn node_id_byte_len(id: NodeIdModel) -> nat {
    match id.identifier {
        IdentifierModel::Numeric(value) => {
            if id.namespace == 0 && value <= 255 {
                2
            } else if id.namespace <= 255 && value <= 65535 {
                4
            } else {
                7
            }
        },
        IdentifierModel::String(text) => 7 + text_byte_count(text),
        IdentifierModel::Guid(_) => 19,
        IdentifierModel::ByteString(blob) => 7 + blob_byte_count(blob),
    }
}

/// Whether a node identifier has a binary form: a text or a byte string
/// must not have more bytes than its length field can hold.
pub open spec fn node_id_encodable(id: NodeIdModel) -> bool {
    match id.identifier {
        IdentifierModel::String(text) => text_byte_count(text) <= i32::MAX,
        IdentifierModel::ByteString(blob) => blob_byte_count(blob) <= i32::MAX,
        _ => true,
    }
}

/// Whether a decoder with the given limits accepts the text or the byte
/// string of a node identifier.
pub open spec fn node_id_within_limits(id: NodeIdModel, ctx: Context) -> bool {
    match id.identifier {
        IdentifierModel::String(text) => text_byte_count(text) <= ctx.max_string_length,
        IdentifierModel::ByteString(blob) => blob_byte_count(blob) <= ctx.max_byte_string_length,
        _ => true,
    }
}

/// The outcome `decoded` of decoding an identifier, as the outcome of
/// decoding a node identifier in `namespace`.
pub open spec fn in_namespace(
    namespace: u16,
    decoded: Decoded<IdentifierModel>,
) -> Decoded<NodeIdModel> {
    Decoded {
        result: match decoded.result {
            Ok(identifier) => Ok(NodeIdModel { namespace, identifier }),
            Err(e) => Err(e),
        },
        rest: decoded.rest,
    }
}

/// What decoding makes of `body`, the input after the tag byte `tag` and,
/// for the tags from 3 on, after the namespace.
pub open spec fn decode_identifier(tag: u8, body: Seq<u8>, ctx: Context) -> Decoded<
    IdentifierModel,
> {
    if tag == 3 {
        let text = decode_text(body, ctx.max_string_length as nat);
        Decoded {
            result: match text.result {
                Ok(t) => Ok(IdentifierModel::String(t)),
                Err(e) => Err(e),
            },
            rest: text.rest,
        }
    } else if tag == 4 {
        let guid = decode_guid(body);
        Decoded {
            result: match guid.result {
                Ok(g) => Ok(IdentifierModel::Guid(g)),
                Err(e) => Err(e),
            },
            rest: guid.rest,
        }
    } else {
        let blob = decode_blob(body, ctx.max_byte_string_length as nat);
        Decoded {
            result: match blob.result {
                Ok(b) => Ok(IdentifierModel::ByteString(b)),
                Err(e) => Err(e),
            },
            rest: blob.rest,
        }
    }
}

/// What decoding makes of `input` as a node identifier. The first byte is
/// the tag; a tag above 5 is an error, and nothing after it is read. Where
/// the input ends too early, what was read in full before stays read.
pub open spec fn decode_node_id(input: Seq<u8>, ctx: Context) -> Decoded<NodeIdModel> {
    if input.len() < 1 {
        Decoded { result: Err(DecodeError::Truncated), rest: input }
    } else {
        let tag = input[0];
        let body = input.skip(1);
        if tag == 0 {
            if body.len() < 1 {
                Decoded { result: Err(DecodeError::Truncated), rest: body }
            } else {
                Decoded {
                    result: Ok(
                        NodeIdModel {
                            namespace: 0,
                            identifier: IdentifierModel::Numeric(body[0] as u32),
                        },
                    ),
                    rest: body.skip(1),
                }
            }
        } else if tag == 1 {
            if body.len() < 1 {
                Decoded { result: Err(DecodeError::Truncated), rest: body }
            } else if body.len() < 3 {
                Decoded { result: Err(DecodeError::Truncated), rest: body.skip(1) }
            } else {
                Decoded {
                    result: Ok(
                        NodeIdModel {
                            namespace: body[0] as u16,
                            identifier: IdentifierModel::Numeric(
                                u16_from_le(body[1], body[2]) as u32,
                            ),
                        },
                    ),
                    rest: body.skip(3),
                }
            }
        } else if tag == 2 {
            if body.len() < 2 {
                Decoded { result: Err(DecodeError::Truncated), rest: body }
            } else if body.len() < 6 {
                Decoded { result: Err(DecodeError::Truncated), rest: body.skip(2) }
            } else {
                Decoded {
                    result: Ok(
                        NodeIdModel {
                            namespace: u16_from_le(body[0], body[1]),
                            identifier: IdentifierModel::Numeric(
                                u32_from_le(body[2], body[3], body[4], body[5]),
                            ),
                        },
                    ),
                    rest: body.skip(6),
                }
            }
        } else if tag <= 5 {
            if body.len() < 2 {
                Decoded { result: Err(DecodeError::Truncated), rest: body }
            } else {
                in_namespace(
                    u16_from_le(body[0], body[1]),
                    decode_identifier(tag, body.skip(2), ctx),
                )
            }
        } else {
            Decoded { result: Err(DecodeError::MalformedTag(tag)), rest: body }
        }
    }
}

/// The number of bytes that a text or a byte string takes in all, with its
/// length field, where that field, read from `b0` to `b3`, gives a length
/// from 0 to `max_len`; 4 for any other length field: nothing is read after
/// one that marks an absent value or is refused.
pub open spec fn length_prefixed_size(b0: u8, b1: u8, b2: u8, b3: u8, max_len: nat) -> nat {
    let len = crate::encoding::i32_from_le(b0, b1, b2, b3);
    if 0 <= len <= max_len {
        (4 + len) as nat
    } else {
        4
    }
}

/// How many bytes of input are needed in all before the decoding of an
/// input that begins with `input` can go a step further than it goes on
/// `input` alone: more than `input` has where the decoding of `input` ends
/// for want of bytes, and no more than `input` has where it does not.
pub open spec fn bytes_needed(input: Seq<u8>, ctx: Context) -> nat {
    if input.len() < 1 {
        1
    } else if input[0] == 0 {
        2
    } else if input[0] == 1 {
        4
    } else if input[0] == 2 {
        7
    } else if input[0] == 4 {
        19
    } else if input[0] == 3 || input[0] == 5 {
        if input.len() < 7 {
            7
        } else {
            3 + length_prefixed_size(
                input[3],
                input[4],
                input[5],
                input[6],
                if input[0] == 3 {
                    ctx.max_string_length as nat
                } else {
                    ctx.max_byte_string_length as nat
                },
            )
        }
    } else {
        1
    }
}

/// The decoding of an input ends for want of bytes exactly where the input
/// has fewer bytes than are needed; and it still does so after any bytes
/// that leave it short of that number.
pub proof fn lemma_bytes_needed(input: Seq<u8>, more: Seq<u8>, ctx: Context)
    ensures
        decode_node_id(input, ctx).result == Err::<NodeIdModel, DecodeError>(DecodeError::Truncated)
            <==> input.len() < bytes_needed(input, ctx),
        input.len() + more.len() < bytes_needed(input, ctx) ==> decode_node_id(
            input + more,
            ctx,
        ).result == Err::<NodeIdModel, DecodeError>(DecodeError::Truncated),
{
    lemma_truncated_iff_short(input, ctx);
    if input.len() + more.len() < bytes_needed(input, ctx) {
        let longer = input + more;
        lemma_truncated_iff_short(longer, ctx);
        if input.len() >= 1 {
            assert(longer[0] == input[0]);
            if input.len() >= 7 {
                assert(longer[3] == input[3] && longer[4] == input[4] && longer[5] == input[5]
                    && longer[6] == input[6]);
            }
        }
    }
}

/// The decoding of an input ends for want of bytes exactly where the input
/// has fewer bytes than are needed.
proof fn lemma_truncated_iff_short(input: Seq<u8>, ctx: Context)
    ensures
        decode_node_id(input, ctx).result == Err::<NodeIdModel, DecodeError>(DecodeError::Truncated)
            <==> input.len() < bytes_needed(input, ctx),
{
    if input.len() >= 1 {
        let tag = input[0];
        let body = input.skip(1);
        if (tag == 3 || tag == 4 || tag == 5) && body.len() >= 2 {
            let payload = body.skip(2);
            if payload.len() >= 4 {
                assert(payload[0] == input[3] && payload[1] == input[4] && payload[2] == input[5]
                    && payload[3] == input[6]);
                assert(payload.skip(4).len() == input.len() - 7);
            }
        }
    }
}

/// An input whose first byte is none of the tags from 0 to 5 is refused
/// with that byte, whatever follows it, and nothing after that byte is read.
pub proof fn lemma_unknown_tag_is_refused(input: Seq<u8>, ctx: Context)
    requires
        input.len() >= 1,
        input[0] > 5,
    ensures
        decode_node_id(input, ctx) == (Decoded {
            result: Err::<NodeIdModel, DecodeError>(DecodeError::MalformedTag(input[0])),
            rest: input.skip(1),
        }),
{
}

/// The binary form of a node identifier has as many bytes as
/// `node_id_byte_len` says.
pub proof fn lemma_byte_len_is_encoding_len(id: NodeId)
    requires
        node_id_encodable(id@),
    ensures
        node_id_encoding(id@).len() == node_id_byte_len(id@),
{
    match id@.identifier {
        IdentifierModel::String(text) => {
            lemma_text_encoding_round_trip(text, Seq::<u8>::empty(), text_byte_count(text));
        },
        IdentifierModel::Guid(guid) => {},
        IdentifierModel::ByteString(blob) => {
            lemma_blob_encoding_round_trip(blob, Seq::<u8>::empty(), blob_byte_count(blob));
        },
        _ => {},
    }
}

/// No input that is decoded as a node identifier takes fewer bytes than the
/// binary form of that identifier: among the layouts that the decoder
/// accepts for a node identifier, its binary form is a shortest one.
pub proof fn lemma_binary_form_is_shortest(input: Seq<u8>, ctx: Context)
    requires
        decode_node_id(input, ctx).result is Ok,
    ensures
        decode_node_id(input, ctx).rest.len() <= input.len(),
        node_id_byte_len(decode_node_id(input, ctx).result->Ok_0) <= input.len() - decode_node_id(
            input,
            ctx,
        ).rest.len(),
{
    let tag = input[0];
    let body = input.skip(1);
    if tag == 3 {
        let payload = body.skip(2);
        let len = i32_from_le(payload[0], payload[1], payload[2], payload[3]);
        if len >= 0 {
            decode_utf8_encode_utf8(payload.skip(4).take(len as int));
        }
    }
}

/// The round trip of a number through the binary form.
proof fn lemma_numeric_round_trip(ns: u16, value: u32, tail: Seq<u8>, ctx: Context)
    ensures
        decode_node_id(
            node_id_encoding(
                NodeIdModel { namespace: ns, identifier: IdentifierModel::Numeric(value) },
            ) + tail,
            ctx,
        ) == (Decoded {
            result: Ok(NodeIdModel { namespace: ns, identifier: IdentifierModel::Numeric(value) }),
            rest: tail,
        }),
{
    let id = NodeIdModel { namespace: ns, identifier: IdentifierModel::Numeric(value) };
    let encoding = node_id_encoding(id);
    let input = encoding + tail;
    let body = input.skip(1);
    if ns == 0 && value <= 255 {
        assert(encoding.len() == 2);
        assert(input[0] == 0);
        assert(body[0] == encoding[1]);
        assert(body.skip(1) =~= tail);
    } else if ns <= 255 && value <= 65535 {
        lemma_u16_le_round_trip(value as u16);
        assert(encoding.len() == 4);
        assert(input[0] == 1);
        assert(body[0] == encoding[1] && body[1] == encoding[2] && body[2] == encoding[3]);
        assert(body.skip(3) =~= tail);
    } else {
        lemma_u16_le_round_trip(ns);
        lemma_u32_le_round_trip(value);
        assert(encoding.len() == 7);
        assert(input[0] == 2);
        assert(body[0] == encoding[1] && body[1] == encoding[2]);
        assert(body[2] == encoding[3] && body[3] == encoding[4] && body[4] == encoding[5]
            && body[5] == encoding[6]);
        assert(body.skip(6) =~= tail);
    }
}

/// The start of the decoding of an input that begins with one of the tags
/// from 3 to 5 and a namespace.
proof fn lemma_decode_tagged(tag: u8, ns: u16, payload: Seq<u8>, ctx: Context)
    requires
        3 <= tag <= 5,
    ensures
        decode_node_id(seq![tag] + u16_le(ns) + payload, ctx) == in_namespace(
            ns,
            decode_identifier(tag, payload, ctx),
        ),
{
    let input = seq![tag] + u16_le(ns) + payload;
    let body = input.skip(1);
    lemma_u16_le_round_trip(ns);
    assert(input[0] == tag);
    assert(body[0] == u16_le(ns)[0] && body[1] == u16_le(ns)[1]);
    assert(body.skip(2) =~= payload);
}

/// Decoding the binary form of a node identifier gives the identifier back:
/// for each that has a binary form and whose text or byte string is within
/// the decoder's limits, and with any bytes `tail` after it, which are left
/// unread.
pub proof fn lemma_binary_round_trip(id: NodeId, tail: Seq<u8>, ctx: Context)
    requires
        node_id_encodable(id@),
        node_id_within_limits(id@, ctx),
    ensures
        decode_node_id(node_id_encoding(id@) + tail, ctx) == (Decoded {
            result: Ok(id@),
            rest: tail,
        }),
{
    let input = node_id_encoding(id@) + tail;
    let ns = id.namespace;
    match id@.identifier {
        IdentifierModel::Numeric(value) => {
            lemma_numeric_round_trip(ns, value, tail, ctx);
        },
        IdentifierModel::String(text) => {
            lemma_text_encoding_round_trip(text, tail, ctx.max_string_length as nat);
            lemma_decode_tagged(3, ns, text_encoding(text) + tail, ctx);
            assert(input =~= seq![3u8] + u16_le(ns) + (text_encoding(text) + tail));
        },
        IdentifierModel::Guid(guid) => {
            lemma_guid_encoding_round_trip(guid, tail);
            lemma_decode_tagged(4, ns, guid_swap(guid) + tail, ctx);
            assert(input =~= seq![4u8] + u16_le(ns) + (guid_swap(guid) + tail));
        },
        IdentifierModel::ByteString(blob) => {
            lemma_blob_encoding_round_trip(blob, tail, ctx.max_byte_string_length as nat);
            lemma_decode_tagged(5, ns, blob_encoding(blob) + tail, ctx);
            assert(input =~= seq![5u8] + u16_le(ns) + (blob_encoding(blob) + tail));
        },
    }
}

impl NodeId {
    /// Whether the node identifier has a binary form: its text or byte
    /// string, if it has one, fits the length field.
    pub fn is_encodable(&self) -> (b: bool)
        ensures
            b == node_id_encodable(self@),
    {
        match &self.identifier {
            Identifier::String(text) => match &text.value {
                Some(s) => s.as_str().as_bytes().len() <= 0x7fff_ffff,
                None => true,
            },
            Identifier::ByteString(blob) => match &blob.value {
                Some(v) => v.len() <= 0x7fff_ffff,
                None => true,
            },
            _ => true,
        }
    }

    /// The number of bytes of the binary form, or `usize::MAX` where that
    /// number is larger.
    pub fn byte_len(&self, ctx: &Context) -> (size: usize)
        ensures
            size == if node_id_byte_len(self@) <= usize::MAX {
                node_id_byte_len(self@)
            } else {
                usize::MAX as nat
            },
    {
        match &self.identifier {
            Identifier::Numeric(value) => {
                if self.namespace == 0 && *value <= 255 {
                    2
                } else if self.namespace <= 255 && *value <= 65535 {
                    4
                } else {
                    7
                }
            },
            Identifier::String(value) => value.byte_len(ctx).saturating_add(3),
            Identifier::Guid(value) => 3 + value.byte_len(),
            Identifier::ByteString(value) => value.byte_len(ctx).saturating_add(3),
        }
    }

    /// Appends the binary form to `stream`, or fails and appends nothing
    /// where the node identifier has none.
    pub fn encode(&self, stream: &mut Vec<u8>, ctx: &Context) -> (r: Result<(), EncodeError>)
        ensures
            r is Ok <==> node_id_encodable(self@),
            r is Ok ==> final(stream)@ == old(stream)@ + node_id_encoding(self@),
            r matches Err(e) ==> e == EncodeError::PayloadTooLong && final(stream)@ == old(
                stream,
            )@,
    {
        if !self.is_encodable() {
            return Err(EncodeError::PayloadTooLong);
        }
        match &self.identifier {
            Identifier::Numeric(value) => {
                if self.namespace == 0 && *value <= 255 {
                    write_u8(stream, 0x0);
                    write_u8(stream, *value as u8);
                } else if self.namespace <= 255 && *value <= 65535 {
                    write_u8(stream, 0x1);
                    write_u8(stream, self.namespace as u8);
                    write_u16(stream, *value as u16);
                } else {
                    write_u8(stream, 0x2);
                    write_u16(stream, self.namespace);
                    write_u32(stream, *value);
                }
                assert(stream@ =~= old(stream)@ + node_id_encoding(self@));
                Ok(())
            },
            Identifier::String(value) => {
                write_u8(stream, 0x3);
                write_u16(stream, self.namespace);
                let r = value.encode(stream, ctx);
                assert(stream@ =~= old(stream)@ + node_id_encoding(self@));
                r
            },
            Identifier::Guid(value) => {
                write_u8(stream, 0x4);
                write_u16(stream, self.namespace);
                value.encode(stream);
                assert(stream@ =~= old(stream)@ + node_id_encoding(self@));
                Ok(())
            },
            Identifier::ByteString(value) => {
                write_u8(stream, 0x5);
                write_u16(stream, self.namespace);
                let r = value.encode(stream, ctx);
                assert(stream@ =~= old(stream)@ + node_id_encoding(self@));
                r
            },
        }
    }

    /// How many bytes of input are needed in all before the decoding of an
    /// input that begins with `input` can go further than it goes on `input`
    /// alone, or `usize::MAX` where that number is larger. Who reads from a
    /// stream reads up to this number, asks again, and decodes once the
    /// answer is no more than what was read.
    pub fn bytes_needed(input: &[u8], ctx: &Context) -> (n: usize)
        ensures
            n == if bytes_needed(input@, *ctx) <= usize::MAX {
                bytes_needed(input@, *ctx)
            } else {
                usize::MAX as nat
            },
    {
        if input.len() < 1 {
            return 1;
        }
        let tag = input[0];
        if tag == 0 {
            2
        } else if tag == 1 {
            4
        } else if tag == 2 {
            7
        } else if tag == 4 {
            19
        } else if tag == 3 || tag == 5 {
            if input.len() < 7 {
                return 7;
            }
            let mut reader = ByteReader::new(slice_subrange(input, 3, 7));
            let len = match reader.read_i32() {
                Ok(len) => len,
                Err(_) => {
                    return 7;
                },
            };
            let max = if tag == 3 {
                ctx.max_string_length
            } else {
                ctx.max_byte_string_length
            };
            if len < 0 || len as usize > max {
                7
            } else if len as usize > usize::MAX - 7 {
                usize::MAX
            } else {
                7 + len as usize
            }
        } else {
            1
        }
    }

    /// Reads a node identifier in its binary form. A text or a byte string
    /// longer than `ctx` allows is refused.
    pub fn decode(reader: &mut ByteReader, ctx: &Context) -> (r: Result<NodeId, DecodeError>)
        ensures
            final(reader).remaining() == decode_node_id(old(reader).remaining(), *ctx).rest,
            match r {
                Ok(id) => decode_node_id(old(reader).remaining(), *ctx).result == Ok::<
                    NodeIdModel,
                    DecodeError,
                >(id@),
                Err(e) => decode_node_id(old(reader).remaining(), *ctx).result == Err::<
                    NodeIdModel,
                    DecodeError,
                >(e),
            },
    {
        let ghost input = reader.remaining();
        let identifier = reader.read_u8()?;
        let ghost body = reader.remaining();
        let node_id = match identifier {
            0x0 => {
                let namespace: u16 = 0;
                let value = reader.read_u8()?;
                NodeId::new(namespace, value as u32)
            },
            0x1 => {
                let namespace = reader.read_u8()?;
                assert(reader.remaining() == body.skip(1));
                let value = reader.read_u16()?;
                assert(reader.remaining() =~= body.skip(3));
                NodeId::new(namespace as u16, value as u32)
            },
            0x2 => {
                let namespace = reader.read_u16()?;
                let value = reader.read_u32()?;
                assert(reader.remaining() =~= body.skip(6));
                NodeId::new(namespace, value)
            },
            0x3 => {
                let namespace = reader.read_u16()?;
                let value = UAString::decode(reader, ctx)?;
                NodeId::new(namespace, value)
            },
            0x4 => {
                let namespace = reader.read_u16()?;
                let value = Guid::decode(reader)?;
                NodeId::new(namespace, value)
            },
            0x5 => {
                let namespace = reader.read_u16()?;
                let value = ByteString::decode(reader, ctx)?;
                NodeId::new(namespace, value)
            },
            _ => {
                return Err(DecodeError::MalformedTag(identifier));
            },
        };
        Ok(node_id)
    }
}

} // verus!
