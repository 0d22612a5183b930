//! Connected-peer state, as a caller of the pipeline tracks it: which peers
//! this node currently holds a connection with.
//!
//! The registry is a set of peer identifiers. Recording a connection twice
//! or a disconnection of an absent peer changes nothing — in particular, a
//! repeated disconnection (a close whose acknowledgment was lost and which
//! is delivered again) leaves the state exactly where the first one left
//! it.

use vstd::prelude::*;
use vstd::set::Set;

use crate::identity::PeerId;

verus! {

/// The set of identifiers a sequence of peers holds.
pub open spec fn peers_view(s: Seq<PeerId>) -> Set<Seq<u8>> {
    Set::new(|b: Seq<u8>| exists|i: int| 0 <= i < s.len() && s[i]@ == b)
}

/// The peers this node currently holds a connection with.
pub struct ConnectionRegistry {
    peers: Vec<PeerId>,
}

impl View for ConnectionRegistry {
    type V = Set<Seq<u8>>;

    closed spec fn view(&self) -> Set<Seq<u8>> {
        peers_view(self.peers@)
    }
}

impl ConnectionRegistry {
    /// An empty registry: no peer is connected.
    pub fn new() -> (r: ConnectionRegistry)
        ensures
            r@ == Set::<Seq<u8>>::empty(),
    {
        let r = ConnectionRegistry { peers: Vec::new() };
        proof {
            assert(r@ =~= Set::<Seq<u8>>::empty());
        }
        r
    }

    /// Whether `peer` is currently recorded as connected.
    pub fn is_connected(&self, peer: &PeerId) -> (r: bool)
        ensures
            r <==> self@.contains(peer@),
    {
        let mut i: usize = 0;
        while i < self.peers.len()
            invariant
                i <= self.peers@.len(),
                forall|j: int| 0 <= j < i ==> self.peers@[j]@ != peer@,
            decreases self.peers@.len() - i,
        {
            if self.peers[i].matches(peer) {
                return true;
            }
            i += 1;
        }
        false
    }

    /// Whether no peer at all is recorded as connected.
    pub fn is_empty(&self) -> (r: bool)
        ensures
            r <==> self@ == Set::<Seq<u8>>::empty(),
    {
        if self.peers.len() == 0 {
            proof {
                assert(self@ =~= Set::<Seq<u8>>::empty());
            }
            true
        } else {
            proof {
                assert(self@.contains(self.peers@[0]@));
            }
            false
        }
    }

    /// Records that a connection to `peer` was established. Recording an
    /// already-connected peer changes nothing.
    pub fn note_connected(&mut self, peer: PeerId)
        ensures
            final(self)@ == old(self)@.insert(peer@),
    {
        if self.is_connected(&peer) {
            proof {
                assert(self@ =~= old(self)@.insert(peer@));
            }
        } else {
            let ghost before = self.peers@;
            self.peers.push(peer);
            proof {
                assert forall|b: Seq<u8>| self@.contains(b) implies old(self)@.insert(
                    peer@,
                ).contains(b) by {
                    let i = choose|i: int|
                        0 <= i < self.peers@.len() && self.peers@[i]@ == b;
                    if i < before.len() {
                        assert(before[i]@ == b);
                    }
                }
                assert forall|b: Seq<u8>| old(self)@.insert(peer@).contains(b) implies self@.contains(b) by {
                    if old(self)@.contains(b) {
                        let i = choose|i: int| 0 <= i < before.len() && before[i]@ == b;
                        assert(self.peers@[i]@ == b);
                    } else {
                        assert(self.peers@[before.len() as int]@ == b);
                    }
                }
                assert(self@ =~= old(self)@.insert(peer@));
            }
        }
    }

    /// Records that the connection to `peer` is gone. Recording a
    /// disconnection of an absent peer changes nothing, so a re-delivered
    /// disconnection has no further effect.
    pub fn note_disconnected(&mut self, peer: &PeerId)
        ensures
            final(self)@ == old(self)@.remove(peer@),
    {
        let mut kept: Vec<PeerId> = Vec::new();
        let mut i: usize = 0;
        while i < self.peers.len()
            invariant
                i <= self.peers@.len(),
                self.peers@ == old(self).peers@,
                forall|k: int|
                    0 <= k < kept@.len() ==> #[trigger] kept@[k]@ != peer@ && exists|j: int|
                        0 <= j < i && self.peers@[j]@ == kept@[k]@,
                forall|j: int|
                    0 <= j < i ==> self.peers@[j]@ == peer@ || exists|k: int|
                        0 <= k < kept@.len() && kept@[k]@ == #[trigger] self.peers@[j]@,
            decreases self.peers@.len() - i,
        {
            let candidate = &self.peers[i];
            let ghost prev = kept@;
            if !candidate.matches(peer) {
                kept.push(candidate.duplicate());
                proof {
                    assert(kept@[kept@.len() - 1]@ == self.peers@[i as int]@);
                }
            }
            proof {
                assert forall|j: int|
                    0 <= j < i && self.peers@[j]@ != peer@ implies exists|k: int|
                        0 <= k < kept@.len() && kept@[k]@ == self.peers@[j]@ by {
                    let k = choose|k: int| 0 <= k < prev.len() && prev[k]@ == self.peers@[j]@;
                    assert(kept@[k]@ == self.peers@[j]@);
                }
            }
            i += 1;
        }
        let ghost before = self.peers@;
        let ghost kept_snapshot = kept@;
        self.peers = kept;
        proof {
            assert forall|b: Seq<u8>| self@.contains(b) implies old(self)@.remove(
                peer@,
            ).contains(b) by {
                let k = choose|k: int|
                    0 <= k < kept_snapshot.len() && kept_snapshot[k]@ == b;
                assert(kept_snapshot[k]@ != peer@);
                let j = choose|j: int|
                    0 <= j < before.len() && before[j]@ == kept_snapshot[k]@;
                assert(before[j]@ == b);
            }
            assert forall|b: Seq<u8>| old(self)@.remove(peer@).contains(b) implies self@.contains(b) by {
                let j = choose|j: int| 0 <= j < before.len() && before[j]@ == b;
                assert(exists|k: int|
                    0 <= k < kept_snapshot.len() && kept_snapshot[k]@ == before[j]@);
            }
            assert(self@ =~= old(self)@.remove(peer@));
        }
    }
}

} // verus!
