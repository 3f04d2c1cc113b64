//! The transport: one connector, one handshake, one connection.

use crate::address::{has_websocket_scheme, target_text, with_default_scheme, with_scheme, ws_prefix};
use crate::connection::WebsocketConnection;
use crate::error::TransportError;
use crate::foreign::url_parse;
use tokio::net::TcpStream;
use tokio_tungstenite::tungstenite::handshake::client::Request;
use tokio_tungstenite::tungstenite::Error as WsError;
use tokio_tungstenite::WebSocketStream;
use url::{ParseError, Url};
use vstd::prelude::*;
use vstd::std_specs::convert::{FromSpecImpl, TryFromSpecImpl};

verus! {

/// A client handshake request with headers, path and subprotocol of the
/// caller's choosing.
pub type WebsocketRequest = Request;

/// How a session is to be established. A connector describes an intent; it
/// holds no live session.
#[derive(Debug)]
pub enum Connector {
    /// A stream that is already open, on which this side accepts the
    /// handshake.
    Direct(TcpStream),
    /// The URL of a peer to dial.
    Url(Url),
    /// A handshake request to dial a peer with.
    Request(WebsocketRequest),
}

/// The handshake that a driver has to perform for a transport.
#[derive(Debug)]
pub enum Handshake {
    /// Act as the acceptor of the handshake on the stream.
    Accept(TcpStream),
    /// Act as the dialer: connect to the host and port of the URL and send
    /// the upgrade request with default headers. Of the answer to the
    /// request only success or failure counts.
    Dial(Url),
    /// Act as the dialer with the request as it stands.
    DialWith(WebsocketRequest),
}

impl Handshake {
    /// The handshake that a connector calls for.
    pub open spec fn of(connector: Connector) -> Handshake {
        match connector {
            Connector::Direct(stream) => Handshake::Accept(stream),
            Connector::Url(url) => Handshake::Dial(url),
            Connector::Request(request) => Handshake::DialWith(request),
        }
    }
}

/// A transport that has not been connected yet.
///
/// Connecting consumes the transport, so each one makes at most one attempt.
#[derive(Debug)]
pub struct WebsocketClientTransport {
    connector: Connector,
    websocket_connection: Option<WebsocketConnection>,
}

impl WebsocketClientTransport {
    /// The strategy that the transport was built with.
    pub closed spec fn connector(self) -> Connector {
        self.connector
    }

    /// The connection that the transport holds, if any.
    pub closed spec fn connection(self) -> Option<WebsocketConnection> {
        self.websocket_connection
    }

    /// The transport that a constructor makes of a connector: it holds the
    /// connector and no connection.
    pub closed spec fn fresh(connector: Connector) -> WebsocketClientTransport {
        WebsocketClientTransport { connector, websocket_connection: None }
    }

    /// The transport that is built for a text to parse: one that dials the
    /// parsed URL, or the parser's refusal.
    pub open spec fn parsed(text: Seq<char>) -> Result<WebsocketClientTransport, TransportError> {
        match url_parse(text) {
            Ok(url) => Ok(Self::fresh(Connector::Url(url))),
            Err(cause) => Err(TransportError::AddressParse(cause)),
        }
    }

    /// The transport that is built for an address given with or without
    /// the scheme.
    pub open spec fn dialed(address: Seq<char>) -> Result<
        WebsocketClientTransport,
        TransportError,
    > {
        Self::parsed(target_text(address))
    }

    /// Whether `answer` is what the connection accessor gives for the
    /// transport.
    pub open spec fn answers(
        self,
        answer: Result<&WebsocketConnection, TransportError>,
    ) -> bool {
        match self.connection() {
            Some(connection) => answer == Ok::<&WebsocketConnection, TransportError>(&connection),
            None => answer == Err::<&WebsocketConnection, TransportError>(
                TransportError::NotConnected,
            ),
        }
    }

    /// Builds a transport around a connector. No I/O happens here.
    pub fn new(connector: Connector) -> (transport: WebsocketClientTransport)
        ensures
            transport == Self::fresh(connector),
            transport.connector() == connector,
            transport.connection() is None,
    {
        WebsocketClientTransport { connector, websocket_connection: None }
    }

    /// Builds a transport from what the URL parser made of an address.
    pub fn from_parsed(outcome: Result<Url, ParseError>) -> (built: Result<
        WebsocketClientTransport,
        TransportError,
    >)
        ensures
            match outcome {
                Ok(url) => built == Ok::<WebsocketClientTransport, TransportError>(
                    Self::fresh(Connector::Url(url)),
                ),
                Err(cause) => built == Err::<WebsocketClientTransport, TransportError>(
                    TransportError::AddressParse(cause),
                ),
            },
    {
        match outcome {
            Ok(url) => Ok(WebsocketClientTransport::new(Connector::Url(url))),
            Err(cause) => Err(TransportError::AddressParse(cause)),
        }
    }

    /// Builds a transport for a `host:port` pair, such as the text of a
    /// socket address. The URL always gets the insecure scheme.
    pub fn from_socket_address(address: &str) -> (built: Result<
        WebsocketClientTransport,
        TransportError,
    >)
        ensures
            built == Self::parsed(ws_prefix() + address@),
    {
        let text = with_scheme(address);
        Self::from_parsed(Url::parse(text.as_str()))
    }

    /// The connection, if the transport holds one. A transport that has
    /// not been connected answers `NotConnected`.
    pub fn get_connection(&self) -> (answer: Result<&WebsocketConnection, TransportError>)
        ensures
            self.answers(answer),
    {
        match &self.websocket_connection {
            Some(connection) => Ok(connection),
            None => Err(TransportError::NotConnected),
        }
    }

    /// Consumes the transport and says which handshake is to be performed.
    pub fn handshake(self) -> (handshake: Handshake)
        ensures
            handshake == Handshake::of(self.connector()),
    {
        match self.connector {
            Connector::Direct(stream) => Handshake::Accept(stream),
            Connector::Url(url) => Handshake::Dial(url),
            Connector::Request(request) => Handshake::DialWith(request),
        }
    }

    /// Turns the outcome of the handshake into the result of connecting:
    /// the session wrapped into a connection, or `HandshakeFailed` with the
    /// cause.
    pub fn complete(outcome: Result<WebSocketStream<TcpStream>, WsError>) -> (connected: Result<
        WebsocketConnection,
        TransportError,
    >)
        ensures
            match outcome {
                Ok(session) => connected matches Ok(connection) && connection.session()
                    == session,
                Err(cause) => connected == Err::<WebsocketConnection, TransportError>(
                    TransportError::HandshakeFailed(cause),
                ),
            },
    {
        match outcome {
            Ok(session) => Ok(WebsocketConnection::new(session)),
            Err(cause) => Err(TransportError::HandshakeFailed(cause)),
        }
    }

    /// Connects through `negotiate`, which performs the handshake it is
    /// handed. The handshake is attempted once; the transport is gone
    /// afterwards, whatever the outcome.
    pub fn connect<F>(self, negotiate: F) -> (connected: Result<
        WebsocketConnection,
        TransportError,
    >) where F: FnOnce(Handshake) -> Result<WebSocketStream<TcpStream>, WsError>
        requires
            negotiate.requires((Handshake::of(self.connector()),)),
        ensures
            match connected {
                Ok(connection) => negotiate.ensures(
                    (Handshake::of(self.connector()),),
                    Ok(connection.session()),
                ),
                Err(error) => error matches TransportError::HandshakeFailed(cause)
                    && negotiate.ensures((Handshake::of(self.connector()),), Err(cause)),
            },
    {
        let handshake = self.handshake();
        let outcome = negotiate(handshake);
        Self::complete(outcome)
    }
}

/// A transport as a constructor leaves it holds its connector and no
/// connection, so the connection accessor answers `NotConnected` until the
/// transport is consumed by connecting.
pub proof fn lemma_fresh_is_not_connected(connector: Connector)
    ensures
        WebsocketClientTransport::fresh(connector).connector() == connector,
        WebsocketClientTransport::fresh(connector).connection() is None,
        forall|answer: Result<&WebsocketConnection, TransportError>|
            #[trigger] WebsocketClientTransport::fresh(connector).answers(answer) ==> answer
                == Err::<&WebsocketConnection, TransportError>(TransportError::NotConnected),
{
}

/// The connection accessor is idempotent: whatever it answers for a
/// transport, it answers every time, and a connection in the answer is the
/// one that the transport holds.
pub proof fn lemma_accessor_is_idempotent(
    transport: WebsocketClientTransport,
    first: Result<&WebsocketConnection, TransportError>,
    second: Result<&WebsocketConnection, TransportError>,
)
    requires
        transport.answers(first),
        transport.answers(second),
    ensures
        first == second,
        first matches Ok(connection) ==> transport.connection() == Some(*connection),
        first is Err ==> first == Err::<&WebsocketConnection, TransportError>(
            TransportError::NotConnected,
        ),
{
}

/// Construction from an address succeeds exactly when the parser accepts
/// the address, as it stands where it names its scheme and behind `ws://`
/// where it names none. On success the transport dials the parsed URL and
/// holds no connection; on failure the error is `AddressParse` with the
/// parser's cause, and there is no transport.
pub proof fn lemma_construction_follows_the_parser(address: Seq<char>)
    ensures
        WebsocketClientTransport::dialed(address) is Ok <==> url_parse(target_text(address)) is Ok,
        url_parse(target_text(address)) matches Ok(url) ==> {
            &&& WebsocketClientTransport::dialed(address) matches Ok(transport)
            &&& transport.connector() == Connector::Url(url)
            &&& transport.connection() is None
        },
        url_parse(target_text(address)) matches Err(cause)
            ==> WebsocketClientTransport::dialed(address) == Err::<
            WebsocketClientTransport,
            TransportError,
        >(TransportError::AddressParse(cause)),
{
}

/// An address without a scheme is dialed as the URL that is parsed from
/// `ws://` followed by the address as it was given, which is what the same
/// text gives as the `host:port` pair of a socket address.
pub proof fn lemma_address_without_scheme(address: Seq<char>)
    requires
        !has_websocket_scheme(address),
    ensures
        WebsocketClientTransport::dialed(address) == WebsocketClientTransport::parsed(
            ws_prefix() + address,
        ),
{
}

/// An address that names its scheme, `ws` or `wss`, is parsed as it
/// stands.
pub proof fn lemma_address_with_scheme(address: Seq<char>)
    requires
        has_websocket_scheme(address),
    ensures
        WebsocketClientTransport::dialed(address) == WebsocketClientTransport::parsed(address),
{
}

impl From<TcpStream> for WebsocketClientTransport {
    /// An accepted stream makes a transport that accepts the handshake.
    fn from(socket: TcpStream) -> (transport: WebsocketClientTransport)
        ensures
            transport.connector() == Connector::Direct(socket),
            transport.connection() is None,
    {
        WebsocketClientTransport::new(Connector::Direct(socket))
    }
}

impl FromSpecImpl<TcpStream> for WebsocketClientTransport {
    open spec fn obeys_from_spec() -> bool {
        true
    }

    open spec fn from_spec(socket: TcpStream) -> WebsocketClientTransport {
        Self::fresh(Connector::Direct(socket))
    }
}

impl From<Url> for WebsocketClientTransport {
    /// A parsed URL makes a transport that dials it, scheme and all.
    fn from(url: Url) -> (transport: WebsocketClientTransport)
        ensures
            transport.connector() == Connector::Url(url),
            transport.connection() is None,
    {
        WebsocketClientTransport::new(Connector::Url(url))
    }
}

impl FromSpecImpl<Url> for WebsocketClientTransport {
    open spec fn obeys_from_spec() -> bool {
        true
    }

    open spec fn from_spec(url: Url) -> WebsocketClientTransport {
        Self::fresh(Connector::Url(url))
    }
}

impl From<WebsocketRequest> for WebsocketClientTransport {
    /// A handshake request makes a transport that dials with it.
    fn from(request: WebsocketRequest) -> (transport: WebsocketClientTransport)
        ensures
            transport.connector() == Connector::Request(request),
            transport.connection() is None,
    {
        WebsocketClientTransport::new(Connector::Request(request))
    }
}

impl FromSpecImpl<WebsocketRequest> for WebsocketClientTransport {
    open spec fn obeys_from_spec() -> bool {
        true
    }

    open spec fn from_spec(request: WebsocketRequest) -> WebsocketClientTransport {
        Self::fresh(Connector::Request(request))
    }
}

impl<'a> TryFrom<&'a str> for WebsocketClientTransport {
    type Error = TransportError;

    /// An address makes a transport that dials it. A scheme that the
    /// address names, `ws` or `wss`, is kept; the scheme is `ws` where the
    /// address names none. An address that does not parse is refused
    /// here, not at connect time.
    fn try_from(address: &'a str) -> (built: Result<WebsocketClientTransport, TransportError>)
        ensures
            built == WebsocketClientTransport::dialed(address@),
    {
        let text = with_default_scheme(address);
        WebsocketClientTransport::from_parsed(Url::parse(text.as_str()))
    }
}

impl<'a> TryFromSpecImpl<&'a str> for WebsocketClientTransport {
    open spec fn obeys_try_from_spec() -> bool {
        true
    }

    open spec fn try_from_spec(address: &'a str) -> Result<
        WebsocketClientTransport,
        TransportError,
    > {
        Self::dialed(address@)
    }
}

} // verus!
