//! Typed failures of the codec and projection layer.

use vstd::prelude::*;

verus! {

/// Why a raw response payload could not be decoded.
#[derive(Debug, Clone, Copy, PartialEq, Eq, Structural)]
pub enum DecodeError {
    /// The payload is shorter than the fixed header of the operation.
    TooShort,
    /// The payload ended before the structure its own counts declare.
    Truncated,
}

/// An identification object's value bytes are not valid UTF-8 text.
#[derive(Debug, Clone, Copy, PartialEq, Eq, Structural)]
pub struct EncodingError;

/// Failure of one extension operation, as surfaced to the caller.
#[derive(Debug, Clone, PartialEq, Eq)]
pub enum ClientError {
    /// Decoding the response payload failed.
    Decode(DecodeError),
    /// The transport answered with a response of some shape other than the
    /// opaque custom one.
    UnexpectedResponseShape,
    /// The transport itself failed; the message is the transport's own.
    Transport(String),
    /// Projecting the decoded structure into text failed.
    Encoding(EncodingError),
}

} // verus!
