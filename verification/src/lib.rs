//! The protocol core of a SOCKS version 5 proxy server (RFC 1928, with the
//! username/password sub-negotiation of RFC 1929).
//!
//! The crate holds the binary framing of the protocol's messages, the
//! credential check, the session state machine and the state machine of a
//! relay direction. It performs no I/O: a driver reads and writes the
//! sockets and feeds the machines with events.

pub mod auth;
pub mod decode;
pub mod encode;
pub mod message;
pub mod progress;
pub mod relay;
pub mod roundtrip;
pub mod session;
pub mod text;
