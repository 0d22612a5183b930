//! Protocol names, supported-protocol lists, and the selection rule of
//! protocol negotiation.
//!
//! A protocol name is a plain byte string (for example `/hello-world/1.0.0`).
//! During negotiation the dialing side proposes names in order of preference
//! and the listening side accepts the first proposed name that appears in its
//! own supported list. The wire format of the exchange belongs to the
//! negotiation collaborator; only the selection rule is modelled and verified
//! here.

use vstd::prelude::*;

verus! {

/// Whether `name` occurs in `list`.
pub open spec fn list_has(list: Seq<Seq<u8>>, name: Seq<u8>) -> bool {
    exists|i: int| 0 <= i < list.len() && list[i] == name
}

/// The name negotiation selects: the first proposed name that the supporting
/// side's list contains, or `None` when there is no mutually supported name.
pub open spec fn first_supported(proposed: Seq<Seq<u8>>, supported: Seq<Seq<u8>>) -> Option<Seq<u8>>
    decreases proposed.len(),
{
    if proposed.len() == 0 {
        None
    } else if list_has(supported, proposed[0]) {
        Some(proposed[0])
    } else {
        first_supported(proposed.drop_first(), supported)
    }
}

/// One logical bidirectional stream multiplexed over a connection, scoped to
/// a negotiated application protocol.
///
/// A substream can only be produced by completed protocol negotiation: no
/// unnegotiated stream is ever exposed to callers, and the protocol name it
/// carries is always the negotiated one.
#[derive(Debug)]
pub struct Substream {
    protocol: Vec<u8>,
}

impl Substream {
    /// The protocol negotiated for this substream.
    pub closed spec fn protocol_spec(self) -> Seq<u8> {
        self.protocol@
    }

    /// Wraps a stream whose negotiation selected `protocol`.
    pub(crate) fn negotiated(protocol: Vec<u8>) -> (r: Substream)
        ensures
            r.protocol_spec() == protocol@,
    {
        Substream { protocol }
    }

    /// The protocol negotiated for this substream.
    pub fn protocol(&self) -> (r: &Vec<u8>)
        ensures
            r@ == self.protocol_spec(),
    {
        &self.protocol
    }
}

/// A list of byte strings viewed deeply is the list of their views.
proof fn lemma_deep_view_index(list: &Vec<Vec<u8>>, i: int)
    requires
        0 <= i < list@.len(),
    ensures
        list.deep_view().len() == list@.len(),
        list.deep_view()[i] == list@[i]@,
{
    assert(list.deep_view()[i] =~= list@[i]@);
}

/// A copy of a list of protocol names, byte for byte.
pub fn clone_names(list: &Vec<Vec<u8>>) -> (r: Vec<Vec<u8>>)
    ensures
        r.deep_view() == list.deep_view(),
{
    let mut out: Vec<Vec<u8>> = Vec::new();
    let mut i: usize = 0;
    while i < list.len()
        invariant
            i <= list@.len(),
            out@.len() == i,
            forall|j: int| 0 <= j < i ==> out.deep_view()[j] == list.deep_view()[j],
        decreases list@.len() - i,
    {
        let name = list[i].clone();
        proof {
            lemma_deep_view_index(list, i as int);
        }
        out.push(name);
        proof {
            lemma_deep_view_index(&out, i as int);
        }
        i += 1;
    }
    proof {
        assert(out.deep_view() =~= list.deep_view());
    }
    out
}

/// Byte-for-byte equality of two byte strings.
pub fn bytes_eq(a: &Vec<u8>, b: &Vec<u8>) -> (r: bool)
    ensures
        r <==> a@ == b@,
{
    if a.len() != b.len() {
        return false;
    }
    let mut i: usize = 0;
    while i < a.len()
        invariant
            i <= a.len(),
            a.len() == b.len(),
            forall|j: int| 0 <= j < i ==> a@[j] == b@[j],
        decreases a.len() - i,
    {
        if a[i] != b[i] {
            return false;
        }
        i += 1;
    }
    proof {
        assert(a@ =~= b@);
    }
    true
}

/// Whether `name` occurs in `list`, byte for byte.
pub fn list_contains(list: &Vec<Vec<u8>>, name: &Vec<u8>) -> (r: bool)
    ensures
        r == list_has(list.deep_view(), name@),
{
    let mut i: usize = 0;
    while i < list.len()
        invariant
            i <= list.len(),
            forall|j: int| 0 <= j < i ==> list.deep_view()[j] != name@,
        decreases list.len() - i,
    {
        let hit = bytes_eq(&list[i], name);
        proof {
            lemma_deep_view_index(list, i as int);
        }
        if hit {
            return true;
        }
        i += 1;
    }
    false
}

/// Listener-side selection: the first name of `proposed` that `supported`
/// contains, or `None` when the two lists share no name.
pub fn select_first_supported(proposed: &Vec<Vec<u8>>, supported: &Vec<Vec<u8>>) -> (r: Option<
    Vec<u8>,
>)
    ensures
        (match r {
            Some(name) => first_supported(proposed.deep_view(), supported.deep_view()) == Some(
                name@,
            ),
            None => first_supported(proposed.deep_view(), supported.deep_view()) is None,
        }),
{
    let ghost pdv = proposed.deep_view();
    let ghost sdv = supported.deep_view();
    proof {
        assert(pdv.skip(0) =~= pdv);
    }
    let mut i: usize = 0;
    while i < proposed.len()
        invariant
            i <= proposed.len(),
            pdv == proposed.deep_view(),
            sdv == supported.deep_view(),
            pdv.len() == proposed.len(),
            first_supported(pdv, sdv) == first_supported(pdv.skip(i as int), sdv),
        decreases proposed.len() - i,
    {
        let candidate = &proposed[i];
        proof {
            lemma_deep_view_index(proposed, i as int);
            assert(pdv.skip(i as int)[0] == pdv[i as int]);
            assert(pdv[i as int] == candidate@);
        }
        if list_contains(supported, candidate) {
            return Some(candidate.clone());
        }
        proof {
            assert(pdv.skip(i as int).drop_first() =~= pdv.skip(i as int + 1));
        }
        i += 1;
    }
    proof {
        assert(pdv.skip(proposed.len() as int).len() == 0);
    }
    None
}

} // verus!
