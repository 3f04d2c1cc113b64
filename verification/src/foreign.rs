//! Types and functions of other crates that the transport builds on.
//!
//! Nothing in this file is proved. The types are opaque to the verifier and
//! are only carried from one place to another; each function is believed
//! to behave as its contract says, and no more is claimed of it than that.
//! What a function reads off an opaque value has a name here, so that the
//! contracts of the library can speak of it.

use crate::channel::{MessageKind, WireMessage, WireMessageView};
use crate::error::SessionFault;
use tokio_tungstenite::tungstenite::Error as WsError;
use tokio_tungstenite::tungstenite::Message;
use vstd::prelude::*;

verus! {

/// A parsed URL record of the `url` crate.
#[verifier::external_type_specification]
#[verifier::external_body]
pub struct ExUrl(url::Url);

/// The reason for which the `url` crate rejected a text.
#[verifier::external_type_specification]
#[verifier::external_body]
pub struct ExParseError(url::ParseError);

/// A TCP stream of the tokio runtime.
#[verifier::external_type_specification]
#[verifier::external_body]
pub struct ExTcpStream(tokio::net::TcpStream);

/// A negotiated WebSocket session over a stream of type `S`.
#[verifier::external_type_specification]
#[verifier::external_body]
#[verifier::reject_recursive_types(S)]
pub struct ExWebSocketStream<S>(tokio_tungstenite::WebSocketStream<S>);

/// An HTTP request with a body of type `T`; a client handshake request has
/// the empty body `()`.
#[verifier::external_type_specification]
#[verifier::external_body]
#[verifier::reject_recursive_types(T)]
pub struct ExRequest<T>(tokio_tungstenite::tungstenite::http::Request<T>);

/// An error of the WebSocket implementation.
#[verifier::external_type_specification]
#[verifier::external_body]
pub struct ExWsError(tokio_tungstenite::tungstenite::Error);

/// A WebSocket message.
#[verifier::external_type_specification]
#[verifier::external_body]
pub struct ExMessage(tokio_tungstenite::tungstenite::Message);

/// What `url::Url::parse` returns for a text.
pub uninterp spec fn url_parse(input: Seq<char>) -> Result<url::Url, url::ParseError>;

/// `url::Url::parse` reads nothing but its argument, so its result is a
/// function of the text. The contract claims only that, by naming the result.
pub assume_specification[ url::Url::parse ](input: &str) -> (parsed: Result<
    url::Url,
    url::ParseError,
>)
    ensures
        parsed == url_parse(input@),
;

/// The kind and the payload that a message is taken apart into: the kind
/// is the variant, the payload is what `tungstenite::Message::into_data`
/// gives.
pub uninterp spec fn message_parts(message: Message) -> WireMessageView;

/// The variant of an error of the WebSocket implementation.
pub uninterp spec fn fault_kind(error: WsError) -> SessionFault;

/// The binary message that `tungstenite::Message::binary` makes of a
/// payload.
pub uninterp spec fn binary_message_of(payload: Seq<u8>) -> Message;

/// `Message::binary` puts the bytes it is given into the `Binary` variant.
/// The contract names that message, which is a function of the bytes, and
/// claims that taking it apart gives the kind `Binary` and the same bytes:
/// `into_data` hands the content of a `Binary` message back as it is.
#[verifier::external_body]
pub(crate) fn binary_message(payload: Vec<u8>) -> (message: Message)
    ensures
        message == binary_message_of(payload@),
        message_parts(message) == (WireMessageView {
            kind: MessageKind::Binary,
            payload: payload@,
        }),
{
    Message::binary(payload)
}

/// Takes a message apart: the kind is read off the variant, the payload is
/// what `Message::into_data` gives, which for a text message is the bytes of
/// the text. Both depend on the message alone; the contract claims only
/// that, by naming the result.
#[verifier::external_body]
pub(crate) fn parts_of(message: Message) -> (parts: WireMessage)
    ensures
        parts@ == message_parts(message),
{
    let kind = match &message {
        Message::Text(_) => MessageKind::Text,
        Message::Binary(_) => MessageKind::Binary,
        Message::Ping(_) => MessageKind::Ping,
        Message::Pong(_) => MessageKind::Pong,
        Message::Close(_) => MessageKind::Close,
    };
    WireMessage { kind, payload: message.into_data() }
}

/// Tells the variants of `tungstenite::Error` apart. The variant depends
/// on the error alone; the contract claims only that, by naming the result.
#[verifier::external_body]
pub(crate) fn fault_of(error: &WsError) -> (fault: SessionFault)
    ensures
        fault == fault_kind(*error),
{
    match error {
        WsError::ConnectionClosed => SessionFault::ConnectionClosed,
        WsError::AlreadyClosed => SessionFault::AlreadyClosed,
        WsError::Io(_) => SessionFault::Io,
        WsError::Capacity(_) => SessionFault::Capacity,
        WsError::Protocol(_) => SessionFault::Protocol,
        WsError::SendQueueFull(_) => SessionFault::SendQueueFull,
        WsError::Utf8 => SessionFault::Utf8,
        WsError::Url(_) => SessionFault::Url,
        WsError::Http(_) => SessionFault::Http,
        WsError::HttpFormat(_) => SessionFault::HttpFormat,
    }
}

} // verus!
