//! A SOCKS5 proxy core: the protocol state machine for one client session,
//! from method negotiation through request parsing, reply encoding and the
//! mapping of connect failures to reply codes. All socket work is left to the
//! caller; the library consumes and produces plain byte values.

pub mod codec;
pub mod config;
pub mod session;
