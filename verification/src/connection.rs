//! The connection that a finished handshake yields.

use crate::channel::{FrameChannel, SessionState};
use tokio::net::TcpStream;
use tokio_tungstenite::WebSocketStream;
use vstd::prelude::*;

verus! {

/// A negotiated WebSocket session, ready to carry frames.
///
/// The connection owns its session. Whoever drives the frame channel takes
/// the session out, alone with [`WebsocketConnection::into_inner`] or
/// together with the two sides of the channel with
/// [`WebsocketConnection::split`].
#[derive(Debug)]
pub struct WebsocketConnection {
    stream: WebSocketStream<TcpStream>,
}

impl WebsocketConnection {
    /// The session inside the connection.
    pub closed spec fn session(self) -> WebSocketStream<TcpStream> {
        self.stream
    }

    /// Wraps a negotiated session.
    pub fn new(stream: WebSocketStream<TcpStream>) -> (connection: WebsocketConnection)
        ensures
            connection.session() == stream,
    {
        WebsocketConnection { stream }
    }

    /// Gives the session back.
    pub fn into_inner(self) -> (stream: WebSocketStream<TcpStream>)
        ensures
            stream == self.session(),
    {
        self.stream
    }

    /// Splits the connection for reading and writing at the same time:
    /// the session, which both sides share, then the channel of the
    /// writing side and the channel of the reading side, both open.
    pub fn split(self) -> (parts: (WebSocketStream<TcpStream>, FrameChannel, FrameChannel))
        ensures
            parts.0 == self.session(),
            parts.1@ == SessionState::Open,
            parts.2@ == SessionState::Open,
    {
        (self.stream, FrameChannel::new(), FrameChannel::new())
    }
}

} // verus!
