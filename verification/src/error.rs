//! The ways in which decoding fails.

use vstd::prelude::*;

verus! {

/// The header of a packet cannot be right. Fatal to the connection.
#[derive(Clone, Copy, Debug, PartialEq, Eq, Structural)]
pub enum FramingError {
    /// The first byte is not the marker byte.
    BadMarker,
    /// The declared total length is less than the header's own length.
    LengthBelowHeader,
}

/// The payload of a packet does not follow the layout of its kind. Fatal to
/// the connection.
#[derive(Clone, Copy, Debug, PartialEq, Eq, Structural)]
pub enum PayloadDecodeError {
    /// A zero-terminated field has no zero byte before the payload ends.
    MissingTerminator,
    /// A field of fixed size reaches past the end of the payload.
    ShortField,
    /// Bytes are left in the payload after its last field.
    LengthMismatch,
}

/// Why a packet could not be decoded.
#[derive(Clone, Copy, Debug, PartialEq, Eq, Structural)]
pub enum DecodeError {
    Framing(FramingError),
    Payload(PayloadDecodeError),
}

/// Why a packet could not be written.
#[derive(Clone, Copy, Debug, PartialEq, Eq, Structural)]
pub enum EncodeError {
    /// The packet is longer than the two-byte length field can say.
    TooLong,
    /// The outgoing buffer cannot grow by the length of the packet.
    BufferFull,
}

} // verus!
