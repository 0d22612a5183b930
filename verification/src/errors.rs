//! The error taxonomy of the library.
//!
//! Substream-level failures (`Error`) distinguish "timed out" from "remote
//! protocol mismatch" from "transport/multiplexer fault", so that callers can
//! choose a retry strategy per kind. Connection-attempt failures
//! (`ConnectError`) are kept apart from substream-level failures: a failed
//! connection attempt is fatal for that attempt, while a failed substream
//! negotiation never tears down its parent connection.

use vstd::prelude::*;

verus! {

/// Why protocol negotiation on a single substream failed.
///
/// Mirrors the negotiation collaborator's failure signal: either no protocol
/// could be agreed upon, or the remote violated the negotiation protocol
/// itself.
#[derive(Clone, Copy, Debug, PartialEq, Eq, Structural)]
pub enum NegotiationError {
    /// No mutually supported protocol could be agreed upon.
    Failed,
    /// The remote spoke the negotiation protocol incorrectly.
    ProtocolViolation,
}

/// A fault of the multiplexer session underlying a connection.
///
/// Mirrors the multiplexer collaborator's error cases.
#[derive(Clone, Copy, Debug, PartialEq, Eq, Structural)]
pub enum MultiplexerError {
    /// An underlying I/O error.
    Io,
    /// Decoding a multiplexer frame failed.
    Decode,
    /// The whole range of stream ids has been used up.
    NoMoreStreamIds,
    /// The operation failed because the session is closed.
    Closed,
    /// Too many streams are open.
    TooManyStreams,
}

/// A substream-level failure, reported as a value and never as a panic.
#[derive(Clone, Copy, Debug, PartialEq, Eq, Structural)]
pub enum Error {
    /// The negotiation timeout elapsed before negotiation completed.
    NegotiationTimeoutReached,
    /// The multiplexer failed while opening or surfacing the stream.
    Multiplexer(MultiplexerError),
    /// Protocol negotiation itself failed.
    NegotiationFailed(NegotiationError),
}

/// A connection-attempt failure: the upgrade chain did not produce a
/// connection. Lower-layer failures propagate here and are not retried
/// internally; retry policy is a caller concern.
#[derive(Clone, Copy, Debug, PartialEq, Eq, Structural)]
pub enum ConnectError {
    /// The overall upgrade timeout elapsed before the chain completed.
    UpgradeTimedOut,
    /// The base transport failed to produce a raw stream.
    TransportFailed,
    /// The authenticated-encryption handshake failed.
    EncryptionFailed,
    /// The remote's claimed identity is not a well-formed public key.
    MalformedIdentity,
    /// The remote's claimed identity does not match the key material that
    /// the handshake actually authenticated.
    IdentityMismatch,
    /// Establishing the multiplexer session failed.
    MultiplexerFailed(MultiplexerError),
}

} // verus!
