//! A client-side library for the Source RCON protocol: a length-prefixed,
//! little-endian binary protocol used to administer game servers over TCP.
//!
//! The crate is split in two layers:
//!
//! - [`packet`]: the wire codec. It converts between an in-memory [`packet::Packet`]
//!   and its exact byte layout, validating structural bounds in both directions.
//! - [`session`]: the protocol engine. It tracks the request-id counter, builds
//!   request frames, and drives the authentication handshake and the multi-packet
//!   command response as small state machines over decoded packets. The caller
//!   owns the TCP stream and feeds packets in; the session never performs I/O.

pub mod error;
pub mod packet;
pub mod session;
