//! Errors of the payload encoders and decoders.

use vstd::prelude::*;

verus! {

/// Why a payload cannot be encoded.
#[derive(Debug, PartialEq, Eq)]
pub enum PayloadEncodeError {
    /// A byte string does not fit in its fixed-size field.
    FieldTooLong { field_name: String, len: usize, max: usize },
    /// A value has no encoding in its field (such as a value with an unknown meaning).
    ValueOutOfRange,
    /// Encoding this message type is not supported.
    NotSupported,
}

/// Why a payload cannot be decoded.
#[derive(Debug, PartialEq, Eq, Structural, Clone, Copy)]
pub enum PayloadParseError {
    /// The message type byte, or a sub-type byte, is not known.
    InvalidMessageType,
    /// The payload is shorter than the message type needs.
    UnexpectedEof,
    /// A field holds a value that the message type does not allow.
    InvalidData,
    /// A text field is not valid UTF-8.
    Utf8Error,
}

} // verus!
