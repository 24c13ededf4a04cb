//! Node identifiers of the OPC UA address space.
//!
//! A node identifier names a node of a server: a variable, an object, a
//! method or a type. It is a namespace index together with a number, a text,
//! a guid or a sequence of bytes. This library holds
//!
//! - the identifier types, owned (`NodeId`, `Identifier`) and borrowing
//!   (`NodeIdRef`, `IdentifierRef`), with their equality, their order and a
//!   hash that both forms share;
//! - the binary form, which takes the shortest layout that the protocol
//!   offers, and the textual form, such as `ns=2;s=Temperature`;
//! - the conversions from and to the well-known nodes of namespace 0;
//! - what the configurations of clients and servers have in common, with
//!   the expansion of environment variables in settings documents.
//!
//! The functions state what they return, and the library proves it, with
//! two exceptions that lie outside it: which number `NodeId::next_numeric`
//! takes from a counter that others may advance at any moment, and what the
//! expansion makes of a text with a dollar sign, which the environment of
//! the process decides. The hash that the owned and the borrowing form are
//! proved to share is `hash_code`; of the derived `Hash` and `Ord` nothing
//! is proved.
//!
//! The library also proves what holds between the functions: that decoding
//! gives back what was encoded, that parsing gives back what was written,
//! that the binary form is a shortest one, and that the order is total.

pub mod base64;
pub mod byte_string;
pub mod chars;
pub mod config;
pub mod decimal;
pub mod encoding;
pub mod expansion;
pub mod guid;
pub mod hashing;
pub mod hex;
pub mod id_ref;
pub mod identifier;
pub mod node_id;
pub mod node_ids;
pub mod nullable;
pub mod order;
pub mod status_code;
pub mod string;

pub use byte_string::ByteString;
pub use encoding::{ByteReader, Context, DecodeError, EncodeError};
pub use guid::Guid;
pub use id_ref::{IdentifierRef, NodeIdRef};
pub use identifier::Identifier;
pub use node_id::{NodeId, NodeIdError, NodeIdErrorKind};
pub use node_ids::{DataTypeId, MethodId, ObjectId, ReferenceTypeId, VariableId};
pub use nullable::UaNullable;
pub use status_code::StatusCode;
pub use string::UAString;
