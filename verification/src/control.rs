//! The per-connection handle for opening outbound substreams and closing the
//! connection.
//!
//! `open_substream` opens a fresh multiplexed stream and negotiates exactly
//! one requested protocol name in the dialer role, racing stream-open and
//! negotiation together against the configured negotiation timeout.
//! `close_connection` requests graceful shutdown of the multiplexer session;
//! shutdown failures are deliberately suppressed — graceful close is
//! advisory cleanup, and the caller cannot observe whether the close
//! acknowledgment arrived.

use vstd::prelude::*;
use vstd::set::Set;

use crate::errors::{Error, MultiplexerError, NegotiationError};
use crate::protocol::{list_contains, list_has, Substream};

verus! {

/// What the driver observed while opening and negotiating one outbound
/// substream. Ticks are measured from the start of the open; an operation
/// that never completes is reported with a tick past every deadline.
pub enum OutboundEvent {
    /// Opening the underlying multiplexed stream failed at `at`.
    OpenFailed { error: MultiplexerError, at: u64 },
    /// The stream opened and negotiation completed at `completed_at`; the
    /// remote's supported protocol list is `remote_supported`.
    Opened { remote_supported: Vec<Vec<u8>>, completed_at: u64 },
}

/// The outcome of one outbound open: the negotiated protocol name, or the
/// failure. The timer wins every race it finishes first; a multiplexer
/// fault or a protocol mismatch is reported only when it happened within
/// the timeout.
pub open spec fn open_outcome(protocol: Seq<u8>, event: OutboundEvent, timeout: u64) -> Result<
    Seq<u8>,
    Error,
> {
    match event {
        OutboundEvent::OpenFailed { error, at } => if at >= timeout {
            Err(Error::NegotiationTimeoutReached)
        } else {
            Err(Error::Multiplexer(error))
        },
        OutboundEvent::Opened { remote_supported, completed_at } => if completed_at >= timeout {
            Err(Error::NegotiationTimeoutReached)
        } else if list_has(remote_supported.deep_view(), protocol) {
            Ok(protocol)
        } else {
            Err(Error::NegotiationFailed(NegotiationError::Failed))
        },
    }
}

/// The per-connection handle: the multiplexer's stream-opening capability
/// plus the negotiation timeout it was configured with.
#[derive(Debug)]
pub struct Control {
    negotiation_timeout: u64,
}

impl Control {
    /// The negotiation timeout this handle was configured with.
    pub closed spec fn negotiation_timeout_spec(self) -> u64 {
        self.negotiation_timeout
    }

    /// A handle configured with `negotiation_timeout`.
    pub(crate) fn new(negotiation_timeout: u64) -> (r: Control)
        ensures
            r.negotiation_timeout_spec() == negotiation_timeout,
    {
        Control { negotiation_timeout }
    }

    /// The negotiation timeout this handle was configured with.
    pub fn negotiation_timeout(&self) -> (r: u64)
        ensures
            r == self.negotiation_timeout_spec(),
    {
        self.negotiation_timeout
    }

    /// Decides the outcome of one outbound substream open for `protocol`
    /// from what the driver observed. A substream is returned exactly when
    /// the open and the negotiation completed within the negotiation timeout
    /// and the remote supports the requested protocol; the substream is then
    /// scoped to that protocol.
    pub fn open_substream(&self, protocol: &Vec<u8>, event: &OutboundEvent) -> (r: Result<
        Substream,
        Error,
    >)
        ensures
            (match r {
                Ok(s) => open_outcome(protocol@, *event, self.negotiation_timeout_spec()) == Ok::<
                    _,
                    Error,
                >(s.protocol_spec()) && s.protocol_spec() == protocol@,
                Err(e) => open_outcome(protocol@, *event, self.negotiation_timeout_spec()) == Err::<
                    Seq<u8>,
                    _,
                >(e),
            }),
    {
        match event {
            OutboundEvent::OpenFailed { error, at } => {
                if *at >= self.negotiation_timeout {
                    Err(Error::NegotiationTimeoutReached)
                } else {
                    Err(Error::Multiplexer(*error))
                }
            },
            OutboundEvent::Opened { remote_supported, completed_at } => {
                if *completed_at >= self.negotiation_timeout {
                    Err(Error::NegotiationTimeoutReached)
                } else if list_contains(remote_supported, protocol) {
                    Ok(Substream::negotiated(protocol.clone()))
                } else {
                    Err(Error::NegotiationFailed(NegotiationError::Failed))
                }
            },
        }
    }

    /// Consumes the handle and requests graceful shutdown of the multiplexer
    /// session. Shutdown failures are suppressed: whatever `shutdown_result`
    /// the driver observed, the caller sees nothing — graceful close is
    /// advisory, not a guaranteed-acknowledged operation.
    pub fn close_connection(self, shutdown_result: Result<(), MultiplexerError>) {
        match shutdown_result {
            Ok(_) => (),
            Err(_) => (),
        }
    }
}

/// A protocol name the remote does not support never yields a usable
/// substream: the outcome of such an open is an error for every event the
/// driver can observe, and when the open completed within the timeout it is
/// `NegotiationFailed` exactly — not a timeout, not a multiplexer fault.
pub proof fn lemma_unsupported_protocol_never_connects(
    protocol: Seq<u8>,
    event: OutboundEvent,
    timeout: u64,
)
    requires
        event matches OutboundEvent::Opened { remote_supported, .. } ==> !list_has(
            remote_supported.deep_view(),
            protocol,
        ),
    ensures
        !(open_outcome(protocol, event, timeout) is Ok),
        (event matches OutboundEvent::Opened { completed_at, .. } && completed_at < timeout)
            ==> open_outcome(protocol, event, timeout) == Err::<Seq<u8>, _>(
            Error::NegotiationFailed(NegotiationError::Failed),
        ),
{
}

/// The remote's view of connectivity after it observes that this connection
/// closed: the closing node's identity is no longer among the remote's
/// connected peers.
pub open spec fn remote_view_after_close(connected: Set<Seq<u8>>, local_peer: Seq<u8>) -> Set<
    Seq<u8>,
> {
    connected.remove(local_peer)
}

/// Closing a connection is idempotent in effect on the remote's view of
/// connectivity: a close that is repeated — because its acknowledgment was
/// lost — changes nothing beyond the first.
pub proof fn lemma_close_idempotent(connected: Set<Seq<u8>>, local_peer: Seq<u8>)
    ensures
        remote_view_after_close(remote_view_after_close(connected, local_peer), local_peer)
            =~= remote_view_after_close(connected, local_peer),
{
}

} // verus!
