//! The closed error taxonomy of the client runtime.
//!
//! Transport errors carry the transport tag they arose on; protocol errors
//! describe a malformed or failed exchange. Nothing here retries: retry
//! policy belongs to the flow executor.

use vstd::prelude::*;

verus! {

use crate::json::JsonValue;

/// An error raised by a transport binding.
#[derive(Debug)]
pub enum TransportError {
    /// The channel could not be established.
    ConnectionFailed { transport_type: String, reason: String },
    /// An I/O failure in an established session.
    NetworkError { transport_type: String, reason: String },
    /// An operation on a transport that is not connected.
    NotConnected { transport_type: String, reason: String },
    /// The transport was shut down while work was outstanding.
    DisconnectedError { transport_type: String, reason: String },
    /// Bytes on the wire did not form an envelope.
    SerializationError { transport_type: String, reason: String },
    /// A deadline passed; `location` names the operation that timed out.
    TimeoutError { transport_type: String, location: String, duration_ms: u64 },
    /// The configuration is unusable, for instance a plain-HTTP URL to a
    /// non-local host.
    InvalidConfig { transport_type: String, reason: String },
}

/// An error at the protocol layer, above the transport.
#[derive(Debug)]
pub enum ProtocolError {
    /// The response could not be interpreted.
    InvalidResponse { reason: String },
    /// Another kind of message arrived than the one awaited.
    UnexpectedMessageType { expected: String, actual: String },
    /// The exchange completed but the request was not served.
    RequestFailed { reason: String },
    /// A well-formed JSON-RPC error from the server.
    ServerError { code: i32, message: String, data: Option<JsonValue> },
}

/// Any error the client surfaces to its callers.
#[derive(Debug)]
pub enum McpError {
    Transport(TransportError),
    Protocol(ProtocolError),
    /// A call was made before initialization reached the ready state.
    NotReady,
}

/// The JSON-RPC reserved code for a method the server does not provide.
pub const METHOD_NOT_FOUND: i32 = -32601;

/// The JSON-RPC reserved code for parameters the server rejects.
pub const INVALID_PARAMS: i32 = -32602;

/// The JSON-RPC reserved code for a request the server cannot read.
pub const PARSE_ERROR: i32 = -32700;

/// The JSON-RPC reserved code for a malformed request object.
pub const INVALID_REQUEST: i32 = -32600;

/// The JSON-RPC reserved code for a server-internal failure.
pub const INTERNAL_ERROR: i32 = -32603;

impl TransportError {
    /// The transport tag this error arose on.
    pub fn transport_type(&self) -> (r: &String)
        ensures
            r == match self {
                TransportError::ConnectionFailed { transport_type, .. } => transport_type,
                TransportError::NetworkError { transport_type, .. } => transport_type,
                TransportError::NotConnected { transport_type, .. } => transport_type,
                TransportError::DisconnectedError { transport_type, .. } => transport_type,
                TransportError::SerializationError { transport_type, .. } => transport_type,
                TransportError::TimeoutError { transport_type, .. } => transport_type,
                TransportError::InvalidConfig { transport_type, .. } => transport_type,
            },
    {
        match self {
            TransportError::ConnectionFailed { transport_type, .. } => transport_type,
            TransportError::NetworkError { transport_type, .. } => transport_type,
            TransportError::NotConnected { transport_type, .. } => transport_type,
            TransportError::DisconnectedError { transport_type, .. } => transport_type,
            TransportError::SerializationError { transport_type, .. } => transport_type,
            TransportError::TimeoutError { transport_type, .. } => transport_type,
            TransportError::InvalidConfig { transport_type, .. } => transport_type,
        }
    }

    /// Whether this error reports a missed deadline.
    pub fn is_timeout(&self) -> (r: bool)
        ensures
            r == (self matches TransportError::TimeoutError { .. }),
    {
        matches!(self, TransportError::TimeoutError { .. })
    }
}

impl McpError {
    /// Whether this is the server's method-not-found error, which the typed
    /// listing calls translate to an empty capability list.
    pub fn is_method_not_found(&self) -> (r: bool)
        ensures
            r == (self matches McpError::Protocol(ProtocolError::ServerError { code, .. })
                && code == METHOD_NOT_FOUND),
    {
        match self {
            McpError::Protocol(ProtocolError::ServerError { code, .. }) => *code
                == METHOD_NOT_FOUND,
            _ => false,
        }
    }
}

} // verus!
