//! Sans-I/O core of a WebSocket transport for a multiplexed RPC engine.
//!
//! The crate decides; a driver performs. Every function here is a pure
//! step: it says which handshake a transport calls for, what a finished
//! handshake amounts to, and what each event on an established session
//! means for the frame channel on top of it.

pub mod address;
pub mod channel;
pub mod client;
pub mod connection;
pub mod error;
pub mod foreign;
