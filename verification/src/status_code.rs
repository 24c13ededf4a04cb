//! The status codes with which the protocol reports the failures of this
//! library.

use crate::encoding::{DecodeError, EncodeError};
use vstd::prelude::*;

verus! {

/// A status code of the protocol.
#[derive(Clone, Copy, Debug, PartialEq, Eq, Structural)]
pub enum StatusCode {
    /// The syntax of a node identifier is not valid.
    BadNodeIdInvalid,
    /// A value could not be decoded.
    BadDecodingError,
    /// A value is too large to be encoded.
    BadEncodingLimitsExceeded,
}

impl StatusCode {
    /// The 32-bit number that the protocol assigns to the status code.
    pub fn bits(&self) -> (code: u32)
        ensures
            code == match self {
                StatusCode::BadNodeIdInvalid => 0x8033_0000u32,
                StatusCode::BadDecodingError => 0x8007_0000u32,
                StatusCode::BadEncodingLimitsExceeded => 0x8008_0000u32,
            },
    {
        match self {
            StatusCode::BadNodeIdInvalid => 0x8033_0000,
            StatusCode::BadDecodingError => 0x8007_0000,
            StatusCode::BadEncodingLimitsExceeded => 0x8008_0000,
        }
    }
}

impl DecodeError {
    /// The status code that reports the error: that of a value that could
    /// not be decoded, whatever the reason.
    pub fn status_code(&self) -> (code: StatusCode)
        ensures
            code == StatusCode::BadDecodingError,
    {
        StatusCode::BadDecodingError
    }
}

impl EncodeError {
    /// The status code that reports the error.
    pub fn status_code(&self) -> (code: StatusCode)
        ensures
            code == StatusCode::BadEncodingLimitsExceeded,
    {
        StatusCode::BadEncodingLimitsExceeded
    }
}

} // verus!
