//! The ways in which a single connection can fail.

use vstd::prelude::*;

verus! {

/// Why a connection was dropped. Every failure is local to one connection.
#[derive(Clone, Copy, Debug, PartialEq, Eq, Structural)]
pub enum Failure {
    /// A peek handed back `got` bytes where `wanted` were asked for.
    ShortPeek { wanted: usize, got: usize },
    /// The first record on the connection does not carry handshake data.
    NotAHandshake,
    /// The record announces `declared` bytes, more than a handshake may have.
    HandshakeTooLarge { declared: usize },
    /// The handshake message cannot be read as a ClientHello.
    NotClientHello,
    /// The ClientHello names no server.
    MissingSNI,
    /// The first server name is not a host name.
    UnsupportedSNIType,
    /// The host name did not resolve to any address.
    ResolutionFailed,
    /// The backend could not be reached.
    ConnectFailed,
    /// Relaying bytes between the two peers broke down.
    RelayFailed,
}

} // verus!
