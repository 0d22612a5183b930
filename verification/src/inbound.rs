//! The inbound protocol negotiator.
//!
//! For each inbound substream the multiplexer surfaces, protocol negotiation
//! runs in the listener role against the connection's fixed supported list,
//! racing a timeout. Each stream is negotiated independently: a failure —
//! timeout, mismatch, or a stream the multiplexer itself surfaced as an
//! error — becomes an ordinary element of the sequence and never aborts the
//! sequence or the connection.

use vstd::prelude::*;

use crate::errors::{Error, MultiplexerError, NegotiationError};
use crate::protocol::{first_supported, select_first_supported, Substream};

verus! {

/// How the remote behaved in one inbound negotiation.
pub enum RemoteNegotiation {
    /// The remote proposed these protocol names, in order of preference.
    Proposed(Vec<Vec<u8>>),
    /// The remote spoke the negotiation protocol incorrectly.
    Violation,
}

/// What the driver observed for one slot of the inbound-substream sequence.
/// Ticks are measured from the moment the stream surfaced; a negotiation
/// that never completes is reported with a tick past every deadline.
pub enum InboundEvent {
    /// The multiplexer surfaced an error in place of a stream.
    MuxFailed(MultiplexerError),
    /// The multiplexer surfaced a stream whose negotiation completed at
    /// `completed_at` with the remote behaving as `remote`.
    Stream { remote: RemoteNegotiation, completed_at: u64 },
}

/// The outcome of one inbound slot: the negotiated protocol name, or the
/// failure reported as a value. The timer wins every race it finishes
/// first.
pub open spec fn inbound_outcome(
    supported: Seq<Seq<u8>>,
    event: InboundEvent,
    timeout: u64,
) -> Result<Seq<u8>, Error> {
    match event {
        InboundEvent::MuxFailed(e) => Err(Error::Multiplexer(e)),
        InboundEvent::Stream { remote, completed_at } => if completed_at >= timeout {
            Err(Error::NegotiationTimeoutReached)
        } else {
            match remote {
                RemoteNegotiation::Violation => Err(
                    Error::NegotiationFailed(NegotiationError::ProtocolViolation),
                ),
                RemoteNegotiation::Proposed(proposed) => match first_supported(
                    proposed.deep_view(),
                    supported,
                ) {
                    Some(name) => Ok(name),
                    None => Err(Error::NegotiationFailed(NegotiationError::Failed)),
                },
            }
        },
    }
}

/// The outcomes of a whole inbound sequence: each slot decided from its own
/// event alone.
pub open spec fn inbound_elements(
    supported: Seq<Seq<u8>>,
    events: Seq<InboundEvent>,
    timeout: u64,
) -> Seq<Result<Seq<u8>, Error>> {
    events.map_values(|e: InboundEvent| inbound_outcome(supported, e, timeout))
}

/// Whether an executable element carries exactly the modelled outcome.
pub open spec fn element_matches(e: Result<Substream, Error>, model: Result<Seq<u8>, Error>) -> bool {
    match e {
        Ok(s) => model == Ok::<_, Error>(s.protocol_spec()),
        Err(err) => model == Err::<Seq<u8>, _>(err),
    }
}

/// The lazy sequence of negotiated inbound substreams of one connection: the
/// supported protocol list offered to every inbound stream, and the timeout
/// each negotiation races against.
#[derive(Debug)]
pub struct InboundSubstreams {
    supported: Vec<Vec<u8>>,
    negotiation_timeout: u64,
}

impl InboundSubstreams {
    /// The protocol names offered to every inbound stream.
    pub closed spec fn supported_spec(self) -> Seq<Seq<u8>> {
        self.supported.deep_view()
    }

    /// The timeout each inbound negotiation races against.
    pub closed spec fn negotiation_timeout_spec(self) -> u64 {
        self.negotiation_timeout
    }

    /// A sequence configured with `supported` and `negotiation_timeout`.
    pub(crate) fn new(supported: Vec<Vec<u8>>, negotiation_timeout: u64) -> (r: InboundSubstreams)
        ensures
            r.supported_spec() == supported.deep_view(),
            r.negotiation_timeout_spec() == negotiation_timeout,
    {
        InboundSubstreams { supported, negotiation_timeout }
    }

    /// Decides the outcome of one inbound slot from what the driver
    /// observed: the negotiated substream, scoped to the selected protocol,
    /// or the failure as a value.
    pub fn next(&self, event: &InboundEvent) -> (r: Result<Substream, Error>)
        ensures
            element_matches(r, inbound_outcome(self.supported_spec(), *event, self.negotiation_timeout_spec())),
    {
        match event {
            InboundEvent::MuxFailed(e) => Err(Error::Multiplexer(*e)),
            InboundEvent::Stream { remote, completed_at } => {
                if *completed_at >= self.negotiation_timeout {
                    Err(Error::NegotiationTimeoutReached)
                } else {
                    match remote {
                        RemoteNegotiation::Violation => Err(
                            Error::NegotiationFailed(NegotiationError::ProtocolViolation),
                        ),
                        RemoteNegotiation::Proposed(proposed) => {
                            match select_first_supported(proposed, &self.supported) {
                                Some(name) => Ok(Substream::negotiated(name)),
                                None => Err(Error::NegotiationFailed(NegotiationError::Failed)),
                            }
                        },
                    }
                }
            },
        }
    }

    /// Decides a whole sequence of inbound slots, one outcome per event, in
    /// the order the multiplexer surfaced them. No element's failure
    /// terminates the sequence: the result has exactly one outcome per
    /// event.
    pub fn negotiate_all(&self, events: &Vec<InboundEvent>) -> (r: Vec<Result<Substream, Error>>)
        ensures
            r@.len() == events@.len(),
            forall|i: int|
                0 <= i < r@.len() ==> #[trigger] element_matches(
                    r@[i],
                    inbound_elements(self.supported_spec(), events@, self.negotiation_timeout_spec())[i],
                ),
    {
        let mut out: Vec<Result<Substream, Error>> = Vec::new();
        let mut i: usize = 0;
        while i < events.len()
            invariant
                i <= events@.len(),
                out@.len() == i,
                forall|j: int|
                    0 <= j < i as int ==> #[trigger] element_matches(
                        out@[j],
                        inbound_outcome(self.supported_spec(), events@[j], self.negotiation_timeout_spec()),
                    ),
            decreases events@.len() - i,
        {
            let element = self.next(&events[i]);
            out.push(element);
            i += 1;
        }
        out
    }
}

/// An inbound substream whose negotiation does not complete within the
/// negotiation timeout yields `NegotiationTimeoutReached` — and it does not
/// block subsequent inbound substreams: every other slot's outcome is
/// decided from its own event alone, exactly as if the timed-out slot had
/// not existed.
pub proof fn lemma_timeout_does_not_block_sequence(
    supported: Seq<Seq<u8>>,
    events: Seq<InboundEvent>,
    timeout: u64,
    i: int,
)
    requires
        0 <= i < events.len(),
        events[i] matches InboundEvent::Stream { completed_at, .. } && completed_at >= timeout,
    ensures
        inbound_elements(supported, events, timeout)[i] == Err::<Seq<u8>, _>(
            Error::NegotiationTimeoutReached,
        ),
        forall|j: int|
            0 <= j < events.len() && j != i ==> inbound_elements(supported, events, timeout)[j]
                == inbound_outcome(supported, events[j], timeout),
        inbound_elements(supported, events.remove(i), timeout) =~= inbound_elements(
            supported,
            events,
            timeout,
        ).remove(i),
{
}

} // verus!
