//! The errors that the socket operations report.

use vstd::prelude::*;

verus! {

/// What went wrong in a socket operation.
#[derive(Copy, Clone, Debug, PartialEq, Eq, Structural)]
pub enum SocketError {
    /// A connection is already open; only one peer is supported at a time.
    ConnectionExists,
    /// The peer refused the connection or reset it during the handshake.
    ConnectionFailed,
    /// The operation needs a connection and there is none.
    NotConnected,
    /// A packet is shorter than its header, or than the body its header declares.
    BufferTooShort,
    /// The caller's buffer cannot take a body of the given length.
    OutputBufferTooShort(usize),
    /// An operation code is unknown, or a packet turned up where it makes no sense.
    InvalidOperation,
    /// A length does not fit the machine's address width.
    InvalidNumber,
    /// The peer has not advertised enough free space; try again after a credit update.
    InsufficientBufferSpaceInPeer,
    /// No descriptor is free for the buffer that was to be queued.
    QueueFull,
    /// A slot index names no slot of the pool, or a slot that is in the wrong state.
    WrongToken,
}

} // verus!
