use vstd::prelude::*;
use crate::addr::TransportAddr;
use crate::descriptor::Data;
use crate::rendezvous::{RelayCommand, RelayEvent};

verus! {

/// What a session resumption hands to the relay client: the imported
/// negotiated state and the pre-seeded peer authorizations.
pub struct ResumeParameters {
    pub realm: Vec<u8>,
    pub nonce: Vec<u8>,
    pub mobility_ticket: Vec<u8>,
    pub permissions: Vec<TransportAddr>,
}

/// What the adapter does with one inbound relay event.
#[derive(PartialEq, Eq, Debug)]
pub enum InboundDecision {
    /// A datagram from the counterpart: deliver the payload.
    Deliver(Vec<u8>),
    /// Anything else: discard it silently and keep polling.
    Skip,
}

/// The filtering decision for one relay event: deliver exactly the payloads
/// whose reported origin is the counterpart; everything else — datagrams from
/// other origins and non-data events alike — is discarded.
pub open spec fn spec_classify(counterpart: TransportAddr, ev: RelayEvent) -> InboundDecision {
    match ev {
        RelayEvent::RecvFrom(origin, payload) => if origin == counterpart {
            InboundDecision::Deliver(payload)
        } else {
            InboundDecision::Skip
        },
        _ => InboundDecision::Skip,
    }
}

/// The payloads a sequence of relay events yields through the filter for a
/// given counterpart, in delivery order.
pub open spec fn inbound_view(counterpart: TransportAddr, evs: Seq<RelayEvent>) -> Seq<Seq<u8>>
    decreases evs.len(),
{
    if evs.len() == 0 {
        Seq::empty()
    } else {
        (match spec_classify(counterpart, evs[0]) {
            InboundDecision::Deliver(p) => seq![p@],
            InboundDecision::Skip => Seq::empty(),
        }) + inbound_view(counterpart, evs.skip(1))
    }
}

/// The channel endpoint's verified core: the fixed counterpart address, and
/// the decisions of the filtered stream/sink adapter around one resumed relay
/// session.
pub struct Channel {
    pub counterpart: TransportAddr,
}

impl Channel {
    /// Builds the endpoint core from a decoded descriptor, together with the
    /// parameters that reconstruct the relay session by resumption: realm,
    /// nonce and mobility ticket imported unchanged, and the counterpart
    /// pre-seeded as the one authorized peer — so the first send needs no
    /// preceding authorization handshake.
    pub fn from_descriptor(d: Data) -> (r: (Channel, ResumeParameters))
        ensures
            r.0.counterpart == d@.counterpart,
            r.1.realm@ == d@.realm,
            r.1.nonce@ == d@.nonce,
            r.1.mobility_ticket@ == d@.mobility_ticket,
            r.1.permissions@ == seq![d@.counterpart],
    {
        let counterpart = d.counterpart;
        let mut permissions: Vec<TransportAddr> = Vec::new();
        permissions.push(counterpart);
        assert(permissions@ =~= seq![d@.counterpart]);
        (
            Channel { counterpart },
            ResumeParameters {
                realm: d.realm,
                nonce: d.nonce,
                mobility_ticket: d.mobility_ticket,
                permissions,
            },
        )
    }

    /// One inbound relay event through the filter.
    pub fn classify_inbound(&self, ev: RelayEvent) -> (r: InboundDecision)
        ensures
            r == spec_classify(self.counterpart, ev),
    {
        match ev {
            RelayEvent::RecvFrom(origin, payload) => {
                if origin == self.counterpart {
                    InboundDecision::Deliver(payload)
                } else {
                    InboundDecision::Skip
                }
            },
            _ => InboundDecision::Skip,
        }
    }

    /// The skip-and-re-poll loop over a batch of already-arrived events: the
    /// payloads the inbound sequence yields for them, exactly those sent by
    /// the counterpart, in arrival order.
    pub fn drain_inbound(&self, evs: Vec<RelayEvent>) -> (r: Vec<Vec<u8>>)
        ensures
            r.deep_view() == inbound_view(self.counterpart, evs@),
    {
        let ghost evs0 = evs@;
        let mut evs = evs;
        let mut out: Vec<Vec<u8>> = Vec::new();
        proof {
            assert(out.deep_view() =~= Seq::<Seq<u8>>::empty());
        }
        while evs.len() > 0
            invariant
                inbound_view(self.counterpart, evs0) == out.deep_view() + inbound_view(
                    self.counterpart,
                    evs@,
                ),
            decreases evs@.len(),
        {
            let ghost pre = evs@;
            let ghost pre_out = out.deep_view();
            let ev = evs.remove(0);
            proof {
                assert(pre.remove(0) =~= pre.skip(1));
                assert(inbound_view(self.counterpart, pre) == (match spec_classify(
                    self.counterpart,
                    pre[0],
                ) {
                    InboundDecision::Deliver(p) => seq![p@],
                    InboundDecision::Skip => Seq::<Seq<u8>>::empty(),
                }) + inbound_view(self.counterpart, pre.skip(1)));
            }
            match self.classify_inbound(ev) {
                InboundDecision::Deliver(p) => {
                    let ghost pv = p@;
                    let ghost pre_vec = out@;
                    out.push(p);
                    proof {
                        assert forall|i: int| 0 <= i < out@.len() implies #[trigger] out@[
                        i].deep_view() == pre_out.push(pv)[i] by {
                            if i < pre_vec.len() {
                                assert(out@[i] == pre_vec[i]);
                                assert(pre_out[i] == pre_vec[i].deep_view());
                            } else {
                                assert(out@[i] == p);
                                assert(p.deep_view() =~= pv);
                            }
                        }
                        assert(out.deep_view() =~= pre_out.push(pv));
                        assert(pre_out.push(pv) =~= pre_out + seq![pv]);
                    }
                },
                InboundDecision::Skip => {
                    proof {
                        assert(pre_out + Seq::<Seq<u8>>::empty() =~= pre_out);
                    }
                },
            }
        }
        proof {
            assert(inbound_view(self.counterpart, evs@) =~= Seq::<Seq<u8>>::empty());
            assert(out.deep_view() + Seq::<Seq<u8>>::empty() =~= out.deep_view());
        }
        out
    }

    /// One accepted payload becomes exactly one send-to-counterpart directive:
    /// nothing is fragmented, reordered or re-addressed.
    pub fn outbound(&self, payload: Vec<u8>) -> (r: RelayCommand)
        ensures
            r == RelayCommand::SendTo(self.counterpart, payload),
    {
        RelayCommand::SendTo(self.counterpart, payload)
    }
}

// ---------------------------------------------------------------------------
// Filtering laws: what the inbound sequence yields, for any interleaving.
// ---------------------------------------------------------------------------

/// The filter is a homomorphism over concatenation: splitting an interleaving
/// anywhere splits its deliveries the same way. With
/// `lemma_inbound_only_counterpart` this is the order-independence of the
/// adapter: other traffic woven in anywhere changes nothing of what the
/// counterpart's datagrams yield.
pub proof fn lemma_inbound_view_concat(
    c: TransportAddr,
    evs1: Seq<RelayEvent>,
    evs2: Seq<RelayEvent>,
)
    ensures
        inbound_view(c, evs1 + evs2) == inbound_view(c, evs1) + inbound_view(c, evs2),
    decreases evs1.len(),
{
    if evs1.len() == 0 {
        assert(evs1 + evs2 =~= evs2);
        assert(inbound_view(c, evs1) + inbound_view(c, evs2) =~= inbound_view(c, evs2));
    } else {
        assert((evs1 + evs2).skip(1) =~= evs1.skip(1) + evs2);
        lemma_inbound_view_concat(c, evs1.skip(1), evs2);
        assert((evs1 + evs2)[0] == evs1[0]);
        assert(inbound_view(c, evs1 + evs2) =~= inbound_view(c, evs1) + inbound_view(c, evs2));
    }
}

/// Event `j` of the interleaving is a datagram from the counterpart carrying
/// payload `v`.
pub open spec fn delivered_from(c: TransportAddr, evs: Seq<RelayEvent>, j: int, v: Seq<u8>) -> bool {
    &&& 0 <= j < evs.len()
    &&& evs[j] matches RelayEvent::RecvFrom(o, p) && o == c && p@ == v
}

/// Filtering correctness: every payload the inbound sequence yields — the
/// `k`-th, for any `k` — is the payload of some event whose reported origin is
/// the counterpart. Nothing from any other origin, and no non-data event,
/// ever comes through.
pub proof fn lemma_inbound_only_counterpart(c: TransportAddr, evs: Seq<RelayEvent>, k: int)
    requires
        0 <= k < inbound_view(c, evs).len(),
    ensures
        exists|j: int| #[trigger] delivered_from(c, evs, j, inbound_view(c, evs)[k]),
    decreases evs.len(),
{
    let tail = inbound_view(c, evs.skip(1));
    match spec_classify(c, evs[0]) {
        InboundDecision::Deliver(p0) => {
            assert(inbound_view(c, evs) =~= seq![p0@] + tail);
            if k == 0 {
                assert(delivered_from(c, evs, 0, inbound_view(c, evs)[0]));
            } else {
                assert(tail[k - 1] == inbound_view(c, evs)[k]);
                lemma_inbound_only_counterpart(c, evs.skip(1), k - 1);
                let j0 = choose|j: int| #[trigger] delivered_from(c, evs.skip(1), j, tail[k - 1]);
                assert(evs.skip(1)[j0] == evs[j0 + 1]);
                assert(delivered_from(c, evs, j0 + 1, inbound_view(c, evs)[k]));
            }
        },
        InboundDecision::Skip => {
            assert(inbound_view(c, evs) =~= tail);
            assert(tail[k] == inbound_view(c, evs)[k]);
            lemma_inbound_only_counterpart(c, evs.skip(1), k);
            let j0 = choose|j: int| #[trigger] delivered_from(c, evs.skip(1), j, tail[k]);
            assert(evs.skip(1)[j0] == evs[j0 + 1]);
            assert(delivered_from(c, evs, j0 + 1, inbound_view(c, evs)[k]));
        },
    }
}

} // verus!
