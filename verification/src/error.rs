//! The errors of the transport, and how a fault of the session is told apart.

use tokio_tungstenite::tungstenite::Error as WsError;
use url::ParseError;
use vstd::prelude::*;

verus! {

/// The ways in which the WebSocket implementation reports that a session
/// went wrong, one for each variant of its error type and without the
/// details that the variants carry.
#[derive(Debug, Clone, Copy, PartialEq, Eq, Structural)]
pub enum SessionFault {
    /// The close handshake is finished.
    ConnectionClosed,
    /// The session was used after it was closed.
    AlreadyClosed,
    /// The underlying stream failed.
    Io,
    /// A buffer or a message was too large.
    Capacity,
    /// The peer broke the protocol.
    Protocol,
    /// The queue of outgoing messages is full.
    SendQueueFull,
    /// A text was not UTF-8.
    Utf8,
    /// The URL could not be used.
    Url,
    /// The peer answered with an HTTP error.
    Http,
    /// An HTTP message was malformed.
    HttpFormat,
}

/// Everything that can go wrong in this layer.
#[derive(Debug)]
pub enum TransportError {
    /// The address given at construction is not a URL.
    AddressParse(ParseError),
    /// The WebSocket negotiation did not complete; the cause is inside.
    HandshakeFailed(WsError),
    /// The connection was asked for before a handshake succeeded.
    NotConnected,
    /// A frame operation on a session that has ended.
    ConnectionClosed,
    /// A frame operation on a session that has failed.
    IoError,
}

impl SessionFault {
    /// Whether the fault says that the session has ended, as opposed to
    /// having broken.
    pub open spec fn ends_session(self) -> bool {
        self == SessionFault::ConnectionClosed || self == SessionFault::AlreadyClosed
    }
}

impl TransportError {
    /// The error that a frame operation fails with when the session reports
    /// `fault`.
    pub open spec fn of_fault(fault: SessionFault) -> TransportError {
        if fault.ends_session() {
            TransportError::ConnectionClosed
        } else {
            TransportError::IoError
        }
    }

    /// Maps a fault of the session to the error of the frame operation that
    /// met it: a session that has ended gives `ConnectionClosed`, any other
    /// fault gives `IoError`.
    pub fn from_fault(fault: SessionFault) -> (error: TransportError)
        ensures
            error == TransportError::of_fault(fault),
    {
        match fault {
            SessionFault::ConnectionClosed | SessionFault::AlreadyClosed => {
                TransportError::ConnectionClosed
            },
            _ => TransportError::IoError,
        }
    }
}

} // verus!
