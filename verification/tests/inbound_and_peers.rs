//! Inbound negotiation sequences and connected-peer state.

use libp2p_core::identity::Keypair;
use p2p_node::{
    ConnectionRegistry, Error, InboundEvent, MultiplexerError, NegotiationError, Node, PeerId,
    RemoteNegotiation, UpgradeEvent,
};

fn name(s: &str) -> Vec<u8> {
    s.as_bytes().to_vec()
}

fn fresh_identity() -> (Vec<u8>, Vec<u8>) {
    let keypair = Keypair::generate_ed25519();
    let public = keypair.public();
    (public.to_protobuf_encoding(), public.to_peer_id().to_bytes())
}

fn established(claimed: Vec<u8>, key: Vec<u8>) -> UpgradeEvent {
    UpgradeEvent::Established {
        claimed_peer: claimed,
        remote_key: key,
    }
}

fn stream(proposed: Vec<Vec<u8>>, completed_at: u64) -> InboundEvent {
    InboundEvent::Stream {
        remote: RemoteNegotiation::Proposed(proposed),
        completed_at,
    }
}

/// A connection of a node that supports exactly `supported` inbound.
fn inbound_of(supported: Vec<Vec<u8>>) -> p2p_node::InboundSubstreams {
    let node = Node::new(fresh_identity().0, supported, 1000, 100);
    let (remote_key, remote_peer) = fresh_identity();
    let connection = node
        .connect(Some((1, established(remote_peer, remote_key))))
        .unwrap();
    let (_, _, inbound) = connection.into_parts();
    inbound
}

#[test]
fn inbound_selects_first_proposed_supported_protocol() {
    let inbound = inbound_of(vec![name("/hello-world/1.0.0"), name("/other/1.0.0")]);

    let substream = inbound
        .next(&stream(
            vec![name("/unknown/1.0.0"), name("/other/1.0.0"), name("/hello-world/1.0.0")],
            3,
        ))
        .unwrap();

    assert_eq!(substream.protocol(), &name("/other/1.0.0"));
}

#[test]
fn inbound_without_common_protocol_fails_with_negotiation_failed() {
    let inbound = inbound_of(vec![name("/hello-world/1.0.0")]);

    let error = inbound
        .next(&stream(vec![name("/foo/bar/1.0.0")], 3))
        .unwrap_err();

    assert_eq!(error, Error::NegotiationFailed(NegotiationError::Failed));
}

#[test]
fn inbound_violation_and_mux_fault_are_reported_per_kind() {
    let inbound = inbound_of(vec![name("/hello-world/1.0.0")]);

    let violation = inbound
        .next(&InboundEvent::Stream {
            remote: RemoteNegotiation::Violation,
            completed_at: 3,
        })
        .unwrap_err();
    assert_eq!(
        violation,
        Error::NegotiationFailed(NegotiationError::ProtocolViolation)
    );

    let mux = inbound
        .next(&InboundEvent::MuxFailed(MultiplexerError::Decode))
        .unwrap_err();
    assert_eq!(mux, Error::Multiplexer(MultiplexerError::Decode));
}

#[test]
fn inbound_timeout_does_not_block_subsequent_streams() {
    let hello = name("/hello-world/1.0.0");
    let inbound = inbound_of(vec![hello.clone()]);

    let events = vec![
        stream(vec![hello.clone()], 100),
        stream(vec![hello.clone()], 99),
    ];
    let mut outcomes = inbound.negotiate_all(&events);

    assert_eq!(outcomes.len(), 2);
    assert_eq!(
        outcomes.remove(0).unwrap_err(),
        Error::NegotiationTimeoutReached
    );
    assert_eq!(outcomes.remove(0).unwrap().protocol(), &hello);
}

#[test]
fn connected_peers_see_exactly_each_other_until_disconnect() {
    let (a_key, a_peer) = fresh_identity();
    let (b_key, b_peer) = fresh_identity();
    let a = Node::new(a_key.clone(), vec![], 1000, 100);
    let b = Node::new(b_key.clone(), vec![], 1000, 100);

    let b_to_a = b
        .connect(Some((1, established(a_peer.clone(), a_key))))
        .unwrap();
    let mut a_accepts = a.listen_on(vec![p2p_node::ListenerEvent::Upgrade(Some((
        1,
        established(b_peer.clone(), b_key),
    )))]);
    let a_to_b = a_accepts.remove(0).unwrap();

    let mut a_peers = ConnectionRegistry::new();
    let mut b_peers = ConnectionRegistry::new();
    a_peers.note_connected(a_to_b.peer().duplicate());
    b_peers.note_connected(b_to_a.peer().duplicate());

    let a_id = PeerId::new(a_peer);
    let b_id = PeerId::new(b_peer);
    assert!(a_peers.is_connected(&b_id));
    assert!(!a_peers.is_connected(&a_id));
    assert!(b_peers.is_connected(&a_id));
    assert!(!b_peers.is_connected(&b_id));
    assert!(!a_peers.is_empty());
    assert!(!b_peers.is_empty());

    a_peers.note_disconnected(&b_id);
    b_peers.note_disconnected(&a_id);
    assert!(a_peers.is_empty());
    assert!(b_peers.is_empty());
}

#[test]
fn repeated_disconnect_has_no_further_effect() {
    let (_, peer_bytes) = fresh_identity();
    let peer = PeerId::new(peer_bytes);
    let mut peers = ConnectionRegistry::new();

    peers.note_connected(peer.duplicate());
    peers.note_connected(peer.duplicate());
    assert!(peers.is_connected(&peer));

    peers.note_disconnected(&peer);
    assert!(peers.is_empty());
    peers.note_disconnected(&peer);
    assert!(peers.is_empty());
}
