//! End-to-end exercises of the pipeline's decision functions, with real
//! identity keys where identities are involved.

use libp2p_core::identity::Keypair;
use p2p_node::identity::verify_peer_id;
use p2p_node::upgrade::multiplexer_mode;
use p2p_node::{
    ConnectError, Connection, Direction, Error, ListenerEvent, MultiplexerError, MultiplexerMode,
    NegotiationError, Node, OutboundEvent, UpgradeEvent,
};

fn name(s: &str) -> Vec<u8> {
    s.as_bytes().to_vec()
}

/// A fresh identity: (protobuf-encoded public key, derived peer id bytes).
fn fresh_identity() -> (Vec<u8>, Vec<u8>) {
    let keypair = Keypair::generate_ed25519();
    let public = keypair.public();
    (public.to_protobuf_encoding(), public.to_peer_id().to_bytes())
}

fn test_node(supported: Vec<Vec<u8>>) -> (Node, Vec<u8>) {
    let (key, peer) = fresh_identity();
    (Node::new(key, supported, 1000, 100), peer)
}

fn established(claimed: Vec<u8>, key: Vec<u8>) -> UpgradeEvent {
    UpgradeEvent::Established {
        claimed_peer: claimed,
        remote_key: key,
    }
}

#[test]
fn dialer_is_multiplexer_client_and_listener_is_server() {
    assert_eq!(multiplexer_mode(Direction::Dialer), MultiplexerMode::Client);
    assert_eq!(
        multiplexer_mode(Direction::Listener),
        MultiplexerMode::Server
    );
}

#[test]
fn peer_id_verifies_against_its_own_key_only() {
    let (key_a, peer_a) = fresh_identity();
    let (key_b, peer_b) = fresh_identity();

    assert!(verify_peer_id(&peer_a, &key_a));
    assert!(verify_peer_id(&peer_b, &key_b));
    assert!(!verify_peer_id(&peer_b, &key_a));
    assert!(!verify_peer_id(&peer_a, &key_b));
    assert!(!verify_peer_id(&peer_a, &b"not a key".to_vec()));
}

#[test]
fn connect_yields_verified_peer() {
    let (node, _) = test_node(vec![]);
    let (remote_key, remote_peer) = fresh_identity();

    let connection = node
        .connect(Some((3, established(remote_peer.clone(), remote_key))))
        .unwrap();

    assert_eq!(connection.peer().bytes(), &remote_peer);
}

#[test]
fn connect_rejects_spoofed_identity() {
    let (node, _) = test_node(vec![]);
    let (remote_key, _) = fresh_identity();
    let (_, other_peer) = fresh_identity();

    let error = node
        .connect(Some((3, established(other_peer, remote_key))))
        .unwrap_err();

    assert_eq!(error, ConnectError::IdentityMismatch);
}

#[test]
fn connect_rejects_malformed_identity() {
    let (node, _) = test_node(vec![]);
    let (_, peer) = fresh_identity();

    let error = node
        .connect(Some((3, established(peer.clone(), b"garbage".to_vec()))))
        .unwrap_err();

    assert_eq!(error, ConnectError::MalformedIdentity);
}

#[test]
fn connect_times_out_when_the_chain_is_too_slow() {
    let (node, _) = test_node(vec![]);
    let (remote_key, remote_peer) = fresh_identity();

    let late = node
        .connect(Some((1000, established(remote_peer, remote_key))))
        .unwrap_err();
    let never = node.connect(None).unwrap_err();

    assert_eq!(late, ConnectError::UpgradeTimedOut);
    assert_eq!(never, ConnectError::UpgradeTimedOut);
}

#[test]
fn connect_propagates_each_layer_failure() {
    let (node, _) = test_node(vec![]);

    assert_eq!(
        node.connect(Some((1, UpgradeEvent::TransportFailed)))
            .unwrap_err(),
        ConnectError::TransportFailed
    );
    assert_eq!(
        node.connect(Some((1, UpgradeEvent::EncryptionFailed)))
            .unwrap_err(),
        ConnectError::EncryptionFailed
    );
    assert_eq!(
        node.connect(Some((
            1,
            UpgradeEvent::MultiplexerFailed(MultiplexerError::Closed)
        )))
        .unwrap_err(),
        ConnectError::MultiplexerFailed(MultiplexerError::Closed)
    );
}

fn connect_pair(
    a: &Node,
    a_peer: &[u8],
    a_key: Vec<u8>,
    b: &Node,
    b_peer: &[u8],
    b_key: Vec<u8>,
) -> (Connection, Connection) {
    let b_to_a = b
        .connect(Some((1, established(a_peer.to_vec(), a_key))))
        .unwrap();
    let a_events = vec![ListenerEvent::Upgrade(Some((
        1,
        established(b_peer.to_vec(), b_key),
    )))];
    let mut a_connections = a.listen_on(a_events);
    let a_to_b = a_connections.remove(0).unwrap();
    (a_to_b, b_to_a)
}

#[test]
fn dial_and_accept_observe_each_others_identity() {
    let (a_key, a_peer) = fresh_identity();
    let (b_key, b_peer) = fresh_identity();
    let a = Node::new(a_key.clone(), vec![], 1000, 100);
    let b = Node::new(b_key.clone(), vec![], 1000, 100);

    let (a_to_b, b_to_a) = connect_pair(&a, &a_peer, a_key, &b, &b_peer, b_key);

    assert_eq!(b_to_a.peer().bytes(), &a_peer);
    assert_eq!(a_to_b.peer().bytes(), &b_peer);
}

#[test]
fn listener_filters_informational_events() {
    let (node, _) = test_node(vec![]);
    let (remote_key, remote_peer) = fresh_identity();

    let events = vec![
        ListenerEvent::NewAddress(name("/memory/5")),
        ListenerEvent::Upgrade(Some((1, established(remote_peer.clone(), remote_key)))),
        ListenerEvent::AddressExpired(name("/memory/5")),
        ListenerEvent::Error,
        ListenerEvent::Upgrade(Some((2, UpgradeEvent::EncryptionFailed))),
    ];

    let connections = node.listen_on(events);

    assert_eq!(connections.len(), 3);
    assert_eq!(connections[0].as_ref().unwrap().peer().bytes(), &remote_peer);
    assert_eq!(
        connections[1].as_ref().unwrap_err(),
        &ConnectError::TransportFailed
    );
    assert_eq!(
        connections[2].as_ref().unwrap_err(),
        &ConnectError::EncryptionFailed
    );
}

#[test]
fn open_substream_negotiates_supported_protocol() {
    let (node, _) = test_node(vec![]);
    let (remote_key, remote_peer) = fresh_identity();
    let connection = node
        .connect(Some((1, established(remote_peer, remote_key))))
        .unwrap();
    let (_, control, _) = connection.into_parts();

    let substream = control
        .open_substream(
            &name("/hello-world/1.0.0"),
            &OutboundEvent::Opened {
                remote_supported: vec![name("/hello-world/1.0.0"), name("/other/1.0.0")],
                completed_at: 7,
            },
        )
        .unwrap();

    assert_eq!(substream.protocol(), &name("/hello-world/1.0.0"));
}

#[test]
fn open_substream_for_unsupported_protocol_fails_with_negotiation_failed() {
    let (node, _) = test_node(vec![]);
    let (remote_key, remote_peer) = fresh_identity();
    let connection = node
        .connect(Some((1, established(remote_peer, remote_key))))
        .unwrap();
    let (_, control, _) = connection.into_parts();

    let error = control
        .open_substream(
            &name("/foo/bar/1.0.0"),
            &OutboundEvent::Opened {
                remote_supported: vec![name("/hello-world/1.0.0")],
                completed_at: 2,
            },
        )
        .unwrap_err();

    assert_eq!(error, Error::NegotiationFailed(NegotiationError::Failed));
}

#[test]
fn open_substream_reports_timeout_and_multiplexer_faults() {
    let (node, _) = test_node(vec![]);
    let (remote_key, remote_peer) = fresh_identity();
    let connection = node
        .connect(Some((1, established(remote_peer, remote_key))))
        .unwrap();
    let (_, control, _) = connection.into_parts();
    let protocol = name("/hello-world/1.0.0");

    let slow = control
        .open_substream(
            &protocol,
            &OutboundEvent::Opened {
                remote_supported: vec![protocol.clone()],
                completed_at: 100,
            },
        )
        .unwrap_err();
    assert_eq!(slow, Error::NegotiationTimeoutReached);

    let failed = control
        .open_substream(
            &protocol,
            &OutboundEvent::OpenFailed {
                error: MultiplexerError::TooManyStreams,
                at: 5,
            },
        )
        .unwrap_err();
    assert_eq!(failed, Error::Multiplexer(MultiplexerError::TooManyStreams));

    let failed_late = control
        .open_substream(
            &protocol,
            &OutboundEvent::OpenFailed {
                error: MultiplexerError::TooManyStreams,
                at: 100,
            },
        )
        .unwrap_err();
    assert_eq!(failed_late, Error::NegotiationTimeoutReached);
}

#[test]
fn hello_world_protocol_is_agreed_by_both_sides() {
    let hello = name("/hello-world/1.0.0");
    let (a_key, a_peer) = fresh_identity();
    let (b_key, b_peer) = fresh_identity();
    let a = Node::new(a_key.clone(), vec![hello.clone()], 1000, 100);
    let b = Node::new(b_key.clone(), vec![], 1000, 100);

    let (a_to_b, b_to_a) = connect_pair(&a, &a_peer, a_key, &b, &b_peer, b_key);

    // B opens the substream towards A for a protocol A supports.
    let (_, b_control, _) = b_to_a.into_parts();
    let outbound = b_control
        .open_substream(
            &hello,
            &OutboundEvent::Opened {
                remote_supported: vec![hello.clone()],
                completed_at: 4,
            },
        )
        .unwrap();
    assert_eq!(outbound.protocol(), &hello);

    // A's side of the same negotiation selects the same protocol.
    let (_, _, a_inbound) = a_to_b.into_parts();
    let inbound = a_inbound
        .next(&p2p_node::InboundEvent::Stream {
            remote: p2p_node::RemoteNegotiation::Proposed(vec![hello.clone()]),
            completed_at: 4,
        })
        .unwrap();
    assert_eq!(inbound.protocol(), &hello);
}

#[test]
fn two_protocols_can_be_requested_on_one_connection() {
    let (node, _) = test_node(vec![]);
    let (remote_key, remote_peer) = fresh_identity();
    let connection = node
        .connect(Some((1, established(remote_peer, remote_key))))
        .unwrap();
    let (_, control, _) = connection.into_parts();
    let remote_supported = vec![name("/hello-world/1.0.0"), name("/other/1.0.0")];

    let first = control
        .open_substream(
            &name("/hello-world/1.0.0"),
            &OutboundEvent::Opened {
                remote_supported: remote_supported.clone(),
                completed_at: 2,
            },
        )
        .unwrap();
    let second = control
        .open_substream(
            &name("/other/1.0.0"),
            &OutboundEvent::Opened {
                remote_supported,
                completed_at: 3,
            },
        )
        .unwrap();

    assert_eq!(first.protocol(), &name("/hello-world/1.0.0"));
    assert_eq!(second.protocol(), &name("/other/1.0.0"));
}

#[test]
fn accept_that_never_completes_times_out() {
    let (node, _) = test_node(vec![]);

    let connections = node.listen_on(vec![ListenerEvent::Upgrade(None)]);

    assert_eq!(connections.len(), 1);
    assert_eq!(
        connections[0].as_ref().unwrap_err(),
        &ConnectError::UpgradeTimedOut
    );
}

#[test]
fn close_connection_is_best_effort() {
    let (node, _) = test_node(vec![]);
    let (remote_key, remote_peer) = fresh_identity();
    let connection = node
        .connect(Some((1, established(remote_peer.clone(), remote_key.clone()))))
        .unwrap();
    let (_, control, _) = connection.into_parts();
    control.close_connection(Err(MultiplexerError::Io));

    let connection = node
        .connect(Some((1, established(remote_peer, remote_key))))
        .unwrap();
    let (_, control, _) = connection.into_parts();
    control.close_connection(Ok(()));
}
