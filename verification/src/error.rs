//! Errors produced while encoding, parsing, and driving the hub protocol.

use vstd::prelude::*;

verus! {

/// Everything that can go wrong in the protocol engine.
///
/// Transport-level failures are not represented here: the library never
/// touches the transport, so the surrounding application reports those
/// with its own error type.
#[derive(Debug, Clone, PartialEq, Eq)]
pub enum Error {
    /// The connected device is not a hub of the expected family.
    BadDevice,
    /// A received message carries an opcode that is not in the protocol.
    UnknownMessage,
    /// A structurally valid response arrived, but not of the expected kind.
    WrongMessage,
    /// A request serializes to more bytes than the negotiated maximum.
    OversizedMessage,
    /// An enumerated field of a received message holds an out-of-range byte.
    InvalidEnumValue { enum_name: &'static str, value: u8 },
    /// The hub explicitly rejected an operation; carries the operation name
    /// and, for chunked transfers, the offset of the failing chunk.
    NotAcknowledged(&'static str, Option<usize>),
    /// A message ended before all of its declared fields could be read.
    UnexpectedEof,
    /// A received text field is not valid UTF-8.
    InvalidUtf8,
    /// A frame failed to decode: its terminator or block structure is broken.
    CorruptedFrame,
}

} // verus!
