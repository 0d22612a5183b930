//! The per-connection upgrade chain.
//!
//! Each connection attempt, dialed or accepted, runs the same chain: the base
//! transport produces a raw stream, the authenticated-encryption handshake
//! yields the remote's claimed identity and the key material it actually
//! authenticated, the claimed identity is verified against that key material,
//! and the multiplexer session is established with a role chosen by the
//! connection's direction. The whole chain races against the overall upgrade
//! timeout. The asynchronous driver reports what it observed as an
//! [`UpgradeEvent`] together with the tick at which the chain completed;
//! [`upgrade_connection`] decides the attempt's outcome from that report.

use vstd::prelude::*;

use crate::errors::{ConnectError, MultiplexerError};
use crate::identity::{check_peer_id, peer_id_of_key, IdentityCheck, PeerId};

verus! {

/// The side that initiated the connection attempt.
#[derive(Clone, Copy, Debug, PartialEq, Eq, Structural)]
pub enum Direction {
    /// This node dialed the remote address.
    Dialer,
    /// This node accepted the connection on a listener.
    Listener,
}

/// The role a node takes in the multiplexer session.
#[derive(Clone, Copy, Debug, PartialEq, Eq, Structural)]
pub enum MultiplexerMode {
    Client,
    Server,
}

/// The multiplexer role that a connection's direction selects.
pub open spec fn mode_of_direction(direction: Direction) -> MultiplexerMode {
    match direction {
        Direction::Dialer => MultiplexerMode::Client,
        Direction::Listener => MultiplexerMode::Server,
    }
}

/// The initiating side of a connection acts as the multiplexer client and
/// the accepting side as the multiplexer server.
pub fn multiplexer_mode(direction: Direction) -> (m: MultiplexerMode)
    ensures
        m == mode_of_direction(direction),
{
    match direction {
        Direction::Dialer => MultiplexerMode::Client,
        Direction::Listener => MultiplexerMode::Server,
    }
}

/// What the driver observed while running the upgrade chain on one raw
/// connection.
pub enum UpgradeEvent {
    /// The base transport failed to produce a raw stream.
    TransportFailed,
    /// The authenticated-encryption handshake failed.
    EncryptionFailed,
    /// Establishing the multiplexer session failed.
    MultiplexerFailed(MultiplexerError),
    /// The chain completed: the handshake authenticated possession of
    /// `remote_key` (the remote's protobuf-encoded public key) and the
    /// remote claimed the identifier `claimed_peer`.
    Established { claimed_peer: Vec<u8>, remote_key: Vec<u8> },
}

/// The outcome of one connection attempt: the verified peer identifier and
/// the multiplexer role on success, or the failing layer.
///
/// An attempt is reported as the pair of the tick at which the chain
/// completed and the event it completed with; `None` stands for a chain that
/// never completes. A completion tick at or past the timeout means the timer
/// won the race: the attempt is abandoned and fails with
/// `UpgradeTimedOut`, whatever the chain would eventually have produced.
pub open spec fn upgrade_outcome(
    direction: Direction,
    attempt: Option<(u64, UpgradeEvent)>,
    upgrade_timeout: u64,
) -> Result<(Seq<u8>, MultiplexerMode), ConnectError> {
    match attempt {
        None => Err(ConnectError::UpgradeTimedOut),
        Some((completed_at, event)) => if completed_at >= upgrade_timeout {
            Err(ConnectError::UpgradeTimedOut)
        } else {
            match event {
                UpgradeEvent::TransportFailed => Err(ConnectError::TransportFailed),
                UpgradeEvent::EncryptionFailed => Err(ConnectError::EncryptionFailed),
                UpgradeEvent::MultiplexerFailed(e) => Err(ConnectError::MultiplexerFailed(e)),
                UpgradeEvent::Established { claimed_peer, remote_key } => {
                    if peer_id_of_key(remote_key@) == Some(claimed_peer@) {
                        Ok((claimed_peer@, mode_of_direction(direction)))
                    } else if peer_id_of_key(remote_key@) is None {
                        Err(ConnectError::MalformedIdentity)
                    } else {
                        Err(ConnectError::IdentityMismatch)
                    }
                },
            }
        },
    }
}

/// What a completed upgrade chain hands to the caller: the verified identity
/// of the remote and the multiplexer role to run the session with.
pub struct UpgradeOutput {
    /// The cryptographically verified identity of the remote party.
    pub peer: PeerId,
    /// The multiplexer role selected by the connection's direction.
    pub mode: MultiplexerMode,
}

/// Decides the outcome of one connection attempt from what the driver
/// observed. A connection is produced only for a chain that completed within
/// the upgrade timeout with a verified identity; the peer identifier of the
/// output is always the one derived from the key material the handshake
/// authenticated, never merely the claimed one.
pub fn upgrade_connection(
    direction: Direction,
    attempt: Option<(u64, UpgradeEvent)>,
    upgrade_timeout: u64,
) -> (r: Result<UpgradeOutput, ConnectError>)
    ensures
        (match r {
            Ok(out) => upgrade_outcome(direction, attempt, upgrade_timeout) == Ok::<
                _,
                ConnectError,
            >((out.peer@, out.mode)),
            Err(e) => upgrade_outcome(direction, attempt, upgrade_timeout) == Err::<
                (Seq<u8>, MultiplexerMode),
                _,
            >(e),
        }),
{
    match attempt {
        None => Err(ConnectError::UpgradeTimedOut),
        Some((completed_at, event)) => {
            if completed_at >= upgrade_timeout {
                return Err(ConnectError::UpgradeTimedOut);
            }
            match event {
                UpgradeEvent::TransportFailed => Err(ConnectError::TransportFailed),
                UpgradeEvent::EncryptionFailed => Err(ConnectError::EncryptionFailed),
                UpgradeEvent::MultiplexerFailed(e) => Err(ConnectError::MultiplexerFailed(e)),
                UpgradeEvent::Established { claimed_peer, remote_key } => {
                    match check_peer_id(&claimed_peer, &remote_key) {
                        IdentityCheck::Verified => Ok(
                            UpgradeOutput {
                                peer: PeerId::new(claimed_peer),
                                mode: multiplexer_mode(direction),
                            },
                        ),
                        IdentityCheck::Malformed => Err(ConnectError::MalformedIdentity),
                        IdentityCheck::Mismatch => Err(ConnectError::IdentityMismatch),
                    }
                },
            }
        },
    }
}

/// Mutual authentication: in a successful dial/accept pair, the dialer's
/// observed peer identifier is the one derived from the listener's own key,
/// and the listener's observed peer identifier is the one derived from the
/// dialer's own key. No identity is ever surfaced that the handshake's key
/// material does not prove.
pub proof fn lemma_mutual_authentication(
    dial_attempt: (u64, UpgradeEvent),
    accept_attempt: (u64, UpgradeEvent),
    dial_timeout: u64,
    accept_timeout: u64,
    listener_key: Seq<u8>,
    dialer_key: Seq<u8>,
    dial_out: (Seq<u8>, MultiplexerMode),
    accept_out: (Seq<u8>, MultiplexerMode),
)
    requires
        dial_attempt.1 matches UpgradeEvent::Established { remote_key, .. } && remote_key@
            == listener_key,
        accept_attempt.1 matches UpgradeEvent::Established { remote_key, .. } && remote_key@
            == dialer_key,
        upgrade_outcome(Direction::Dialer, Some(dial_attempt), dial_timeout) == Ok::<
            _,
            ConnectError,
        >(dial_out),
        upgrade_outcome(Direction::Listener, Some(accept_attempt), accept_timeout) == Ok::<
            _,
            ConnectError,
        >(accept_out),
    ensures
        Some(dial_out.0) == peer_id_of_key(listener_key),
        Some(accept_out.0) == peer_id_of_key(dialer_key),
        dial_out.1 == MultiplexerMode::Client,
        accept_out.1 == MultiplexerMode::Server,
{
}

} // verus!
