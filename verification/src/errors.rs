//! Errors of the bridge.

use vstd::prelude::*;

verus! {

/// Why a payload was not decoded.
#[derive(Clone, Copy, Debug, PartialEq, Eq, Structural)]
pub enum DecodeError {
    /// The variant index is not one of this schema.
    Unsupported(u32),
    /// The bytes are not the encoding of any message: too short, too long, or
    /// holding a field that cannot be read.
    Malformed,
    /// The payload is a message of the schema, the variant with this index,
    /// but not one that is expected where it arrived.
    Unexpected(u32),
}

/// Why a byte stream is not a sequence of frames. Each of these is fatal to
/// the connection.
#[derive(Clone, Copy, Debug, PartialEq, Eq, Structural)]
pub enum ProtocolError {
    /// The byte that says what a frame is for holds no known kind.
    UnknownKind(u8),
    /// The payload length is beyond what this end accepts.
    PayloadTooLong(u32),
    /// The stream ended in the middle of a frame.
    Truncated,
}

/// Why a frame was not sent.
#[derive(Clone, Copy, Debug, PartialEq, Eq, Structural)]
pub enum TransportError {
    /// The connection is closed.
    Closed,
    /// The payload is longer than the connection, or the length field of a
    /// frame, lets a payload be.
    PayloadTooLarge,
}

/// A failure reported to the host runtime.
#[derive(Clone, Copy, Debug, PartialEq, Eq, Structural)]
pub enum NsError {
    /// The operation failed.
    Failure,
    /// The operation was asked for with an argument that it cannot take.
    InvalidArg,
}

/// Why a request was not issued.
#[derive(Clone, Copy, Debug, PartialEq, Eq, Structural)]
pub enum RequestError {
    /// The message, the variant with this index, is no request: the schema
    /// pairs no answer with it.
    NotARequest(u32),
    /// The identifier belongs to a request that is in flight.
    IdInUse(u64),
    /// The frame was not sent.
    Transport(TransportError),
}

/// Everything that can go wrong on the bridge.
#[derive(Clone, Copy, Debug, PartialEq, Eq, Structural)]
pub enum BridgeError {
    /// The connection failed at the level of the socket.
    ConnectionError,
    /// A frame was malformed.
    ProtocolError(ProtocolError),
    /// The two ends do not hold the same schema.
    SchemaMismatch,
    /// A frame was addressed to no session.
    UnknownAddress,
    /// A payload was not what was expected where it arrived.
    DecodeError(DecodeError),
    /// A capability reported a failure. It travels as an ordinary answer.
    CapabilityError,
}

impl BridgeError {
    /// Whether the error ends the connection. The others concern one frame or
    /// one request only.
    pub open spec fn fatal(self) -> bool {
        self is ConnectionError || self is ProtocolError || self is SchemaMismatch
    }

    /// Whether the error ends the connection.
    pub fn is_fatal(&self) -> (fatal: bool)
        ensures
            fatal == self.fatal(),
    {
        match self {
            BridgeError::ConnectionError => true,
            BridgeError::ProtocolError(_) => true,
            BridgeError::SchemaMismatch => true,
            _ => false,
        }
    }
}

} // verus!
