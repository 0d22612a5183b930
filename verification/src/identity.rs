//! Peer identities and their verification.
//!
//! A peer identifier is derived deterministically from a peer's public
//! cryptographic key. The authenticated-encryption layer proves possession of
//! a key, not of an identifier, so the identifier claimed by a remote must be
//! independently checked against the key material that the handshake actually
//! authenticated; otherwise a peer could spoof another's identity at the
//! application layer. No connection is ever surfaced with an unverified
//! identity.

use vstd::prelude::*;

use crate::protocol::bytes_eq;

verus! {

/// The identifier that the identity collaborator derives from a
/// protobuf-encoded public key: a digest of the encoded key, or `None` when
/// the bytes are not a well-formed encoded public key.
pub uninterp spec fn peer_id_of_key(key: Seq<u8>) -> Option<Seq<u8>>;

/// Relies on `libp2p_core::identity::PublicKey::from_protobuf_encoding` (to
/// decode the key, deciding well-formedness) and on
/// `libp2p_core::PeerId::from_public_key` via `PublicKey::to_peer_id` (a
/// deterministic digest of the encoded key), with `PeerId::to_bytes` giving
/// the identifier as plain bytes.
#[verifier::external_body]
fn derive_peer_id_bytes(key: &Vec<u8>) -> (r: Option<Vec<u8>>)
    ensures
        (match r {
            Some(derived) => peer_id_of_key(key@) == Some(derived@),
            None => peer_id_of_key(key@) is None,
        }),
{
    match libp2p_core::identity::PublicKey::from_protobuf_encoding(key) {
        Ok(public_key) => Some(public_key.to_peer_id().to_bytes()),
        Err(_) => None,
    }
}

/// An opaque, immutable peer identifier. Equality is by value.
#[derive(Clone, Debug, PartialEq, Eq, Hash)]
pub struct PeerId {
    bytes: Vec<u8>,
}

impl View for PeerId {
    type V = Seq<u8>;

    closed spec fn view(&self) -> Seq<u8> {
        self.bytes@
    }
}

impl PeerId {
    /// Wraps identifier bytes as a `PeerId`.
    pub fn new(bytes: Vec<u8>) -> (r: PeerId)
        ensures
            r@ == bytes@,
    {
        PeerId { bytes }
    }

    /// The identifier as bytes.
    pub fn bytes(&self) -> (r: &Vec<u8>)
        ensures
            r@ == self@,
    {
        &self.bytes
    }

    /// A copy of this identifier.
    pub fn duplicate(&self) -> (r: PeerId)
        ensures
            r@ == self@,
    {
        PeerId { bytes: self.bytes.clone() }
    }

    /// Value equality of two identifiers.
    pub fn matches(&self, other: &PeerId) -> (r: bool)
        ensures
            r <==> self@ == other@,
    {
        bytes_eq(&self.bytes, &other.bytes)
    }
}

/// The result of holding a claimed identity against the key material that
/// the handshake authenticated.
#[derive(Clone, Copy, Debug, PartialEq, Eq, Structural)]
pub enum IdentityCheck {
    /// The key is well-formed and derives exactly the claimed identifier.
    Verified,
    /// The key is not a well-formed encoded public key.
    Malformed,
    /// The key is well-formed but derives a different identifier: the remote
    /// claims an identity its key does not prove.
    Mismatch,
}

/// Holds a claimed identity against the authenticated key material:
/// `Verified` exactly when `remote_key` is a well-formed encoded public key
/// whose derived identifier equals `claimed`.
pub fn check_peer_id(claimed: &Vec<u8>, remote_key: &Vec<u8>) -> (r: IdentityCheck)
    ensures
        r == IdentityCheck::Verified <==> peer_id_of_key(remote_key@) == Some(claimed@),
        r == IdentityCheck::Malformed <==> peer_id_of_key(remote_key@) is None,
{
    match derive_peer_id_bytes(remote_key) {
        Some(derived) => {
            if bytes_eq(&derived, claimed) {
                IdentityCheck::Verified
            } else {
                IdentityCheck::Mismatch
            }
        },
        None => IdentityCheck::Malformed,
    }
}

/// Whether the claimed identity is well-formed and bound to the key material
/// that the handshake authenticated: true exactly when `remote_key` is a
/// well-formed encoded public key whose derived identifier equals `claimed`.
pub fn verify_peer_id(claimed: &Vec<u8>, remote_key: &Vec<u8>) -> (r: bool)
    ensures
        r <==> peer_id_of_key(remote_key@) == Some(claimed@),
{
    let check = check_peer_id(claimed, remote_key);
    match check {
        IdentityCheck::Verified => true,
        IdentityCheck::Malformed => false,
        IdentityCheck::Mismatch => false,
    }
}

} // verus!
