//! Values of types that have a null value.

use crate::byte_string::ByteString;
use crate::guid::Guid;
use crate::node_id::{null_node_id, NodeId};
use crate::string::UAString;
use vstd::prelude::*;

verus! {

/// A type that has a null value.
pub trait UaNullable {
    /// Whether the value is the null value of its type.
    spec fn is_null_value(&self) -> bool;

    /// Whether the value is the null value of its type.
    fn is_ua_null(&self) -> (b: bool)
        ensures
            b == self.is_null_value(),
    ;
}

impl UaNullable for NodeId {
    open spec fn is_null_value(&self) -> bool {
        self@ == null_node_id()
    }

    fn is_ua_null(&self) -> (b: bool) {
        self.is_null()
    }
}

impl UaNullable for UAString {
    open spec fn is_null_value(&self) -> bool {
        self@ is None
    }

    fn is_ua_null(&self) -> (b: bool) {
        self.is_null()
    }
}

impl UaNullable for ByteString {
    open spec fn is_null_value(&self) -> bool {
        self@ is None
    }

    fn is_ua_null(&self) -> (b: bool) {
        self.is_null()
    }
}

impl UaNullable for Guid {
    open spec fn is_null_value(&self) -> bool {
        self@ == Seq::new(16, |i: int| 0u8)
    }

    fn is_ua_null(&self) -> (b: bool) {
        self.is_null()
    }
}

} // verus!
