//! Errors reported by the packet codec and the session engine.

use vstd::prelude::*;

verus! {

/// Every failure the library can report. Transport failures are carried as
/// [`Error::IO`] with a plain-text description, since the library itself never
/// touches a socket: the embedding program maps its I/O errors into that
/// variant before handing them on.
#[derive(Debug)]
pub enum Error {
    /// The server sent bytes that do not frame a packet: a truncated frame or
    /// non-zero terminator bytes.
    BadResponsePacket,
    /// A transport-level read, write or connect failure, described in text.
    IO(String),
    /// A packet body that is not valid UTF-8.
    InvalidData,
    /// A command longer than [`crate::packet::MAX_CMD_SIZE`] bytes; carries the
    /// offending length.
    CmdTooLong(usize),
    /// A packet body of [`crate::packet::MAX_PAYLOAD_SIZE`] bytes or more;
    /// carries the offending length.
    PayloadTooLong(usize),
    /// A declared packet size outside
    /// [[`crate::packet::MIN_PACKET_SIZE`], [`crate::packet::MAX_PACKET_SIZE`]];
    /// carries the offending value, read as an unsigned byte count.
    InvalidPacketSize(usize),
    /// The server rejected the credentials during the handshake.
    AuthFailure,
}

} // verus!
