//! What decoding can report.

use vstd::prelude::*;

verus! {

/// A message does not fit the buffer it came in.
#[derive(Debug, Clone, Copy, PartialEq, Eq)]
pub enum FramingError {
    /// The buffer ends before the bytes that a length field, or a fixed
    /// layout, asks for.
    Truncated,
    /// The length that a message declares is smaller than its own header.
    LengthMismatch,
}

/// An attribute list cannot be walked to its end.
#[derive(Debug, Clone, Copy, PartialEq, Eq)]
pub enum AttributeError {
    /// An attribute declares a length under its header size or past the end
    /// of the buffer.
    Malformed,
}

/// A reply is well formed but is not the answer that was asked for.
#[derive(Debug, Clone, Copy, PartialEq, Eq)]
pub enum ProtocolError {
    /// The kernel answered with an error message.
    KernelRejected,
    /// The reply names no family id.
    FamilyNotFound,
    /// The reply carries no statistics record.
    MissingStats,
}

/// Any failure of decoding a reply.
#[derive(Debug, Clone, Copy, PartialEq, Eq)]
pub enum NetlinkError {
    Framing(FramingError),
    Attribute(AttributeError),
    Protocol(ProtocolError),
}

} // verus!
