//! The assembled pipeline: a node that dials and listens over arbitrary
//! addresses, running the full upgrade chain per connection attempt.
//!
//! A node owns the definition of its upgrade chain — its identity key, the
//! protocol names it supports on inbound substreams, and its two timeouts —
//! and is immutable after construction; cloning shares the chain definition,
//! not live connection state. The asynchronous driver owns the sockets: it
//! dials, accepts, and runs handshakes, and reports to `connect` and
//! `listen_on` what it observed; they decide what each attempt produced.

use vstd::prelude::*;

use crate::control::Control;
use crate::errors::ConnectError;
use crate::inbound::InboundSubstreams;
use crate::identity::PeerId;
use crate::protocol::clone_names;
use crate::upgrade::{
    upgrade_connection, upgrade_outcome, Direction, MultiplexerMode, UpgradeEvent, UpgradeOutput,
};

verus! {

/// One established connection: the verified identity of the remote, the
/// handle for opening outbound substreams, and the sequence of negotiated
/// inbound substreams. Produced once per successful dial or accept, and
/// exclusively owned by the caller that received it.
#[derive(Debug)]
pub struct Connection {
    peer: PeerId,
    control: Control,
    inbound: InboundSubstreams,
}

impl Connection {
    /// The cryptographically verified identity of the remote party.
    pub closed spec fn peer_spec(self) -> Seq<u8> {
        self.peer@
    }

    /// The outbound-substream handle.
    pub closed spec fn control_spec(self) -> Control {
        self.control
    }

    /// The inbound-substream sequence.
    pub closed spec fn inbound_spec(self) -> InboundSubstreams {
        self.inbound
    }

    /// Assembles a connection from the parts the upgrade chain produced.
    pub(crate) fn assemble(peer: PeerId, control: Control, inbound: InboundSubstreams) -> (r:
        Connection)
        ensures
            r.peer_spec() == peer@,
            r.control_spec() == control,
            r.inbound_spec() == inbound,
    {
        Connection { peer, control, inbound }
    }

    /// The verified identity of the remote party.
    pub fn peer(&self) -> (r: &PeerId)
        ensures
            r@ == self.peer_spec(),
    {
        &self.peer
    }

    /// Splits the connection into its parts, handing each to its owner.
    pub fn into_parts(self) -> (r: (PeerId, Control, InboundSubstreams))
        ensures
            r.0@ == self.peer_spec(),
            r.1 == self.control_spec(),
            r.2 == self.inbound_spec(),
    {
        let Connection { peer, control, inbound } = self;
        (peer, control, inbound)
    }
}

/// Whether a connection's handles carry the configuration of the node that
/// produced it: both negotiators race against the node's negotiation
/// timeout, and the inbound negotiator offers the node's supported list.
pub open spec fn connection_configured(
    c: Connection,
    supported: Seq<Seq<u8>>,
    negotiation_timeout: u64,
) -> bool {
    &&& c.control_spec().negotiation_timeout_spec() == negotiation_timeout
    &&& c.inbound_spec().supported_spec() == supported
    &&& c.inbound_spec().negotiation_timeout_spec() == negotiation_timeout
}

/// What a listener surfaces for one slot of its event sequence.
pub enum ListenerEvent {
    /// A new local address was bound: informational, never surfaced as a
    /// sequence element.
    NewAddress(Vec<u8>),
    /// A local address expired: informational, never surfaced as a
    /// sequence element.
    AddressExpired(Vec<u8>),
    /// An accepted raw connection, reported with its own upgrade attempt;
    /// each accept races the full chain against the node's upgrade timeout
    /// independently of every other accept.
    Upgrade(Option<(u64, UpgradeEvent)>),
    /// The listener itself failed.
    Error,
}

/// What one listener event contributes to the connection sequence: nothing
/// for the informational events, an upgrade outcome for an accepted
/// connection, a transport failure for a listener error.
pub open spec fn listener_element(ev: ListenerEvent, upgrade_timeout: u64) -> Option<
    Result<Seq<u8>, ConnectError>,
> {
    match ev {
        ListenerEvent::NewAddress(_) => None,
        ListenerEvent::AddressExpired(_) => None,
        ListenerEvent::Error => Some(Err(ConnectError::TransportFailed)),
        ListenerEvent::Upgrade(attempt) => Some(
            match upgrade_outcome(Direction::Listener, attempt, upgrade_timeout) {
                Ok(out) => Ok(out.0),
                Err(e) => Err(e),
            },
        ),
    }
}

/// The connection sequence a listener produces: the informational events
/// filtered out, every other event's element in order.
pub open spec fn listener_elements(events: Seq<ListenerEvent>, upgrade_timeout: u64) -> Seq<
    Result<Seq<u8>, ConnectError>,
>
    decreases events.len(),
{
    if events.len() == 0 {
        Seq::empty()
    } else {
        let rest = listener_elements(events.drop_first(), upgrade_timeout);
        match listener_element(events[0], upgrade_timeout) {
            Some(x) => seq![x] + rest,
            None => rest,
        }
    }
}

/// The identity a sequence element surfaces, with the connection itself
/// abstracted away.
pub open spec fn element_model(e: Result<Connection, ConnectError>) -> Result<Seq<u8>, ConnectError> {
    match e {
        Ok(c) => Ok(c.peer_spec()),
        Err(err) => Err(err),
    }
}

/// The assembled pipeline: the definition of the upgrade chain that every
/// connection attempt of this node runs.
#[derive(Clone)]
pub struct Node {
    local_key: Vec<u8>,
    supported_inbound_protocols: Vec<Vec<u8>>,
    upgrade_timeout: u64,
    negotiation_timeout: u64,
}

impl Node {
    /// The node's own protobuf-encoded public key.
    pub closed spec fn local_key_spec(self) -> Seq<u8> {
        self.local_key@
    }

    /// The protocol names offered to every inbound substream.
    pub closed spec fn supported_spec(self) -> Seq<Seq<u8>> {
        self.supported_inbound_protocols.deep_view()
    }

    /// The overall timeout one connection attempt races against.
    pub closed spec fn upgrade_timeout_spec(self) -> u64 {
        self.upgrade_timeout
    }

    /// The timeout each substream negotiation races against.
    pub closed spec fn negotiation_timeout_spec(self) -> u64 {
        self.negotiation_timeout
    }

    /// A node built from its identity key, its supported inbound protocol
    /// names, the overall upgrade timeout, and the per-substream
    /// negotiation timeout. Construction is pure composition: no I/O
    /// happens until the node dials or listens.
    pub fn new(
        local_key: Vec<u8>,
        supported_inbound_protocols: Vec<Vec<u8>>,
        upgrade_timeout: u64,
        negotiation_timeout: u64,
    ) -> (r: Node)
        ensures
            r.local_key_spec() == local_key@,
            r.supported_spec() == supported_inbound_protocols.deep_view(),
            r.upgrade_timeout_spec() == upgrade_timeout,
            r.negotiation_timeout_spec() == negotiation_timeout,
    {
        Node { local_key, supported_inbound_protocols, upgrade_timeout, negotiation_timeout }
    }

    /// The node's own protobuf-encoded public key.
    pub fn local_key(&self) -> (r: &Vec<u8>)
        ensures
            r@ == self.local_key_spec(),
    {
        &self.local_key
    }

    /// The protocol names offered to every inbound substream.
    pub fn supported_inbound_protocols(&self) -> (r: &Vec<Vec<u8>>)
        ensures
            r.deep_view() == self.supported_spec(),
    {
        &self.supported_inbound_protocols
    }

    /// The overall timeout one connection attempt races against.
    pub fn upgrade_timeout(&self) -> (r: u64)
        ensures
            r == self.upgrade_timeout_spec(),
    {
        self.upgrade_timeout
    }

    /// The timeout each substream negotiation races against.
    pub fn negotiation_timeout(&self) -> (r: u64)
        ensures
            r == self.negotiation_timeout_spec(),
    {
        self.negotiation_timeout
    }

    /// Builds the connection for a completed upgrade.
    fn connection_from(&self, out: UpgradeOutput) -> (r: Connection)
        ensures
            r.peer_spec() == out.peer@,
            connection_configured(r, self.supported_spec(), self.negotiation_timeout_spec()),
    {
        let control = Control::new(self.negotiation_timeout);
        let inbound = InboundSubstreams::new(
            clone_names(&self.supported_inbound_protocols),
            self.negotiation_timeout,
        );
        Connection::assemble(out.peer, control, inbound)
    }

    /// Decides what one dial produced. The driver dialed the address and
    /// ran the upgrade chain; a connection is returned exactly when the
    /// chain completed within the upgrade timeout with a verified identity,
    /// and it carries this node's negotiation configuration.
    pub fn connect(&self, attempt: Option<(u64, UpgradeEvent)>) -> (r: Result<
        Connection,
        ConnectError,
    >)
        ensures
            (match r {
                Ok(conn) => {
                    &&& upgrade_outcome(Direction::Dialer, attempt, self.upgrade_timeout_spec())
                        == Ok::<_, ConnectError>((conn.peer_spec(), MultiplexerMode::Client))
                    &&& connection_configured(
                        conn,
                        self.supported_spec(),
                        self.negotiation_timeout_spec(),
                    )
                },
                Err(e) => upgrade_outcome(Direction::Dialer, attempt, self.upgrade_timeout_spec())
                    == Err::<(Seq<u8>, MultiplexerMode), _>(e),
            }),
    {
        match upgrade_connection(Direction::Dialer, attempt, self.upgrade_timeout) {
            Ok(out) => {
                proof {
                    assert(upgrade_outcome(Direction::Dialer, attempt, self.upgrade_timeout_spec())
                        matches Ok(o) && o.1 == MultiplexerMode::Client);
                }
                Ok(self.connection_from(out))
            },
            Err(e) => Err(e),
        }
    }

    /// Decides the connection sequence one listener produced. Informational
    /// listener events are filtered out and never surface; each accepted
    /// raw connection runs the full upgrade chain independently with its
    /// own timeout, so one peer's slow or failed handshake never blocks or
    /// cancels the elements of other accepts; a listener failure surfaces
    /// as an ordinary error element.
    pub fn listen_on(&self, events: Vec<ListenerEvent>) -> (r: Vec<Result<Connection, ConnectError>>)
        ensures
            r@.map_values(|e: Result<Connection, ConnectError>| element_model(e))
                == listener_elements(events@, self.upgrade_timeout_spec()),
            forall|i: int|
                0 <= i < r@.len() ==> (#[trigger] r@[i] matches Ok(conn) ==> connection_configured(
                    conn,
                    self.supported_spec(),
                    self.negotiation_timeout_spec(),
                )),
    {
        let ghost all_events = events@;
        let mut events = events;
        let mut out: Vec<Result<Connection, ConnectError>> = Vec::new();
        proof {
            assert(out@.map_values(|e: Result<Connection, ConnectError>| element_model(e))
                + listener_elements(events@, self.upgrade_timeout_spec()) =~= listener_elements(
                all_events,
                self.upgrade_timeout_spec(),
            ));
        }
        while events.len() > 0
            invariant
                out@.map_values(|e: Result<Connection, ConnectError>| element_model(e))
                    + listener_elements(events@, self.upgrade_timeout_spec())
                    == listener_elements(all_events, self.upgrade_timeout_spec()),
                forall|i: int|
                    0 <= i < out@.len() ==> (#[trigger] out@[i] matches Ok(conn)
                        ==> connection_configured(
                        conn,
                        self.supported_spec(),
                        self.negotiation_timeout_spec(),
                    )),
            decreases events@.len(),
        {
            let ghost prefix = out@.map_values(
                |e: Result<Connection, ConnectError>| element_model(e),
            );
            let ghost remaining = events@;
            let event = events.remove(0);
            proof {
                assert(events@ =~= remaining.drop_first());
            }
            match event {
                ListenerEvent::NewAddress(_) => (),
                ListenerEvent::AddressExpired(_) => (),
                ListenerEvent::Error => {
                    out.push(Err(ConnectError::TransportFailed));
                    proof {
                        assert(out@.map_values(
                            |e: Result<Connection, ConnectError>| element_model(e),
                        ) =~= prefix.push(Err(ConnectError::TransportFailed)));
                        assert(prefix.push(Err(ConnectError::TransportFailed))
                            + listener_elements(events@, self.upgrade_timeout_spec())
                            =~= prefix + listener_elements(remaining, self.upgrade_timeout_spec()));
                    }
                },
                ListenerEvent::Upgrade(attempt) => {
                    let ghost a = attempt;
                    let element = match upgrade_connection(
                        Direction::Listener,
                        attempt,
                        self.upgrade_timeout,
                    ) {
                        Ok(up) => Ok(self.connection_from(up)),
                        Err(e) => Err(e),
                    };
                    let ghost m = element_model(element);
                    proof {
                        assert(listener_element(remaining[0], self.upgrade_timeout_spec())
                            == Some(m));
                    }
                    out.push(element);
                    proof {
                        assert(out@.map_values(
                            |e: Result<Connection, ConnectError>| element_model(e),
                        ) =~= prefix.push(m));
                        assert(prefix.push(m) + listener_elements(
                            events@,
                            self.upgrade_timeout_spec(),
                        ) =~= prefix + listener_elements(remaining, self.upgrade_timeout_spec()));
                    }
                },
            }
        }
        proof {
            assert(listener_elements(events@, self.upgrade_timeout_spec()) =~= Seq::empty());
            assert(out@.map_values(|e: Result<Connection, ConnectError>| element_model(e))
                =~= listener_elements(all_events, self.upgrade_timeout_spec()));
        }
        out
    }
}

} // verus!
