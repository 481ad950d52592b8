//! The mediator's registry of tunnels, the connectors handed to routines, and
//! the routing decision that each forwarding task applies to what it receives.
use vstd::prelude::*;

use tokio::sync::mpsc::error::TryRecvError;
use tokio::sync::mpsc::{Receiver, Sender};

use crate::envelope::{closed_error, Message, MessagePoint};
use crate::error::MediatorError;
use crate::supervisor::Failure;

verus! {

/// Number of slots of each channel that `connect` creates.
pub const CHANNEL_CAPACITY: usize = 32;

/// What the mediator asks of an identity type: `==` is structural equality,
/// and a clone equals the value it was cloned from.
pub open spec fn identity_laws<E: PartialEq + Clone>() -> bool {
    &&& vstd::laws_eq::obeys_concrete_eq::<E>()
    &&& forall|a: E, b: E| #[trigger] vstd::pervasive::strictly_cloned(a, b) ==> a == b
}

/// The mediator's outbound side towards one identity.
#[verifier::reject_recursive_types(E)]
#[verifier::reject_recursive_types(M)]
pub struct SendTunnel<E, M> {
    pub destination: E,
    pub tx: Sender<MessagePoint<E, M>>,
}

/// The mediator's inbound side from one identity.
#[verifier::reject_recursive_types(E)]
#[verifier::reject_recursive_types(M)]
pub struct RecvTunnel<E, M> {
    pub source: E,
    pub rx: Receiver<MessagePoint<E, M>>,
}

/// The identities of a registry of send tunnels, in registration order.
pub open spec fn destinations<E, M>(tunnels: Seq<SendTunnel<E, M>>) -> Seq<E> {
    tunnels.map_values(|t: SendTunnel<E, M>| t.destination)
}

/// The identities of a list of receive tunnels, in registration order.
pub open spec fn sources<E, M>(tunnels: Seq<RecvTunnel<E, M>>) -> Seq<E> {
    tunnels.map_values(|t: RecvTunnel<E, M>| t.source)
}

/// Some entry of `ids` is `target`.
pub open spec fn registered<E>(ids: Seq<E>, target: E) -> bool {
    exists|i: int| 0 <= i < ids.len() && ids[i] == target
}

/// `slot` is the first entry of `ids` that is `target`.
pub open spec fn first_slot<E>(ids: Seq<E>, target: E, slot: int) -> bool {
    &&& 0 <= slot < ids.len()
    &&& ids[slot] == target
    &&& forall|j: int| 0 <= j < slot ==> ids[j] != target
}

/// The point that a connector of identity `source` puts on its channel when
/// it sends `message` to `destination`.
pub open spec fn addressed<E, M>(destination: E, source: E, message: M) -> MessagePoint<E, M> {
    MessagePoint { destination, payload: Message { source, message } }
}

/// The point that the forwarding task of `owner` sends on towards the
/// destination of `p`: the payload, re-tagged with `owner` as its source.
pub open spec fn forwarded<E, M>(owner: E, p: MessagePoint<E, M>) -> MessagePoint<E, M> {
    addressed(p.destination, owner, p.payload.message)
}

/// What a forwarding task does next.
#[derive(Debug)]
pub enum Forward<E, M> {
    /// Send `point` on the send tunnel at `slot` of the registry.
    Deliver { slot: usize, point: MessagePoint<E, M> },
    /// End the forwarding task with this failure.
    Stop(MediatorError<E>),
}

/// Index of the first send tunnel tagged with `target`, if any.
pub fn find_slot<E: PartialEq + Clone, M>(senders: &Vec<SendTunnel<E, M>>, target: &E) -> (r:
    Option<usize>)
    requires
        identity_laws::<E>(),
    ensures
        r is Some <==> registered(destinations(senders@), *target),
        r matches Some(slot) ==> first_slot(destinations(senders@), *target, slot as int),
{
    let ghost ids = destinations(senders@);
    assert(ids.len() == senders@.len());
    let mut i: usize = 0;
    while i < senders.len()
        invariant
            ids == destinations(senders@),
            ids.len() == senders@.len(),
            identity_laws::<E>(),
            0 <= i <= senders.len(),
            forall|j: int| 0 <= j < i ==> ids[j] != *target,
        decreases senders.len() - i,
    {
        proof {
            reveal(vstd::laws_eq::obeys_concrete_eq);
            assert(ids[i as int] == senders@[i as int].destination);
        }
        if senders[i].destination == *target {
            return Some(i);
        }
        i = i + 1;
    }
    None
}

/// The routing decision of the forwarding task of `owner`, given what its
/// inbound tunnel yielded: `None` once every sender of that tunnel is gone.
/// A point for a registered destination is re-addressed from `owner` to the
/// first send tunnel with that tag; any other point stops the task with
/// `TargetUnreachable` for its destination. A closed inbound tunnel stops the
/// task with `TargetUnreachable` for `owner`.
pub fn forward<E: PartialEq + Clone, M>(
    senders: &Vec<SendTunnel<E, M>>,
    owner: E,
    inbound: Option<MessagePoint<E, M>>,
) -> (r: Forward<E, M>)
    requires
        identity_laws::<E>(),
    ensures
        inbound is None ==> r == Forward::<E, M>::Stop(
            MediatorError::TargetUnreachable { target: owner },
        ),
        inbound matches Some(p) ==> {
            let ids = destinations(senders@);
            &&& !registered(ids, p.destination) ==> r == Forward::<E, M>::Stop(
                MediatorError::TargetUnreachable { target: p.destination },
            )
            &&& registered(ids, p.destination) ==> (r matches Forward::Deliver { slot, point }
                && first_slot(ids, p.destination, slot as int) && point == forwarded(owner, p))
        },
{
    match inbound {
        None => Forward::Stop(MediatorError::TargetUnreachable { target: owner }),
        Some(p) => {
            let slot = find_slot(senders, &p.destination);
            match slot {
                None => Forward::Stop(MediatorError::TargetUnreachable { target: p.destination }),
                Some(slot) => Forward::Deliver {
                    slot,
                    point: MessagePoint::new(p.destination, owner, p.payload.message),
                },
            }
        },
    }
}

/// The router: one receive tunnel per connected identity, and the registry of
/// send tunnels that its forwarding tasks share.
#[verifier::reject_recursive_types(E)]
#[verifier::reject_recursive_types(M)]
pub struct Mediator<E, M> {
    receivers: Vec<RecvTunnel<E, M>>,
    senders: Vec<SendTunnel<E, M>>,
}

/// The handle of one identity: it sends to the mediator and receives what the
/// mediator forwards to that identity.
#[verifier::reject_recursive_types(E)]
#[verifier::reject_recursive_types(M)]
pub struct Connector<E, M> {
    source: E,
    tx: Sender<MessagePoint<E, M>>,
    rx: Receiver<MessagePoint<E, M>>,
}

impl<E, M> Mediator<E, M> {
    /// The receive tunnels, one per `connect`, in the order of the calls.
    pub closed spec fn inbound(self) -> Seq<RecvTunnel<E, M>> {
        self.receivers@
    }

    /// The registry of send tunnels, one per `connect`, in the order of the calls.
    pub closed spec fn outbound(self) -> Seq<SendTunnel<E, M>> {
        self.senders@
    }

    /// The identities that have connected, in the order of the calls.
    pub open spec fn identities(self) -> Seq<E> {
        destinations(self.outbound())
    }

    /// Each connected identity has exactly one receive and one send tunnel.
    pub open spec fn wf(self) -> bool {
        sources(self.inbound()) == destinations(self.outbound())
    }

    pub fn new() -> (r: Self)
        ensures
            r.wf(),
            r.identities().len() == 0,
    {
        let r = Mediator { receivers: Vec::new(), senders: Vec::new() };
        proof {
            assert(sources(r.inbound()) =~= destinations(r.outbound()));
        }
        r
    }

    /// Registers `source`: creates a pair of bounded channels, keeps the
    /// receive tunnel, adds a send tunnel to the registry, and returns the
    /// connector that holds the complementary ends. Connecting one identity
    /// twice adds a second pair of tunnels, and routing then picks the first.
    pub fn connect(&mut self, source: E) -> (r: Connector<E, M>)
        where E: PartialEq + Clone
        requires
            old(self).wf(),
            identity_laws::<E>(),
        ensures
            final(self).wf(),
            final(self).identities() == old(self).identities().push(source),
            final(self).outbound().len() == old(self).outbound().len() + 1,
            final(self).inbound().len() == old(self).inbound().len() + 1,
            final(self).outbound().drop_last() == old(self).outbound(),
            final(self).inbound().drop_last() == old(self).inbound(),
            final(self).outbound().last().destination == source,
            final(self).inbound().last().source == source,
            r.identity() == source,
    {
        proof {
            let top: usize = usize::MAX;
            assert(top >= 0xffff_ffffusize);
            assert(top >> 3usize >= 32usize) by (bit_vector)
                requires
                    top >= 0xffff_ffffusize,
            ;
        }
        let (to_connector, from_mediator) = tokio::sync::mpsc::channel(CHANNEL_CAPACITY);
        let (to_mediator, from_connector) = tokio::sync::mpsc::channel(CHANNEL_CAPACITY);
        let ghost before_in = sources(self.inbound());
        let ghost before_out = destinations(self.outbound());
        let send_tag = source.clone();
        let recv_tag = source.clone();
        assert(vstd::pervasive::strictly_cloned(source, send_tag));
        assert(vstd::pervasive::strictly_cloned(source, recv_tag));
        self.senders.push(SendTunnel { destination: send_tag, tx: to_connector });
        self.receivers.push(RecvTunnel { source: recv_tag, rx: from_connector });
        proof {
            assert(sources(self.inbound()) =~= before_in.push(source));
            assert(destinations(self.outbound()) =~= before_out.push(source));
            assert(self.outbound().drop_last() =~= old(self).outbound());
            assert(self.inbound().drop_last() =~= old(self).inbound());
        }
        Connector { source, tx: to_mediator, rx: from_mediator }
    }

    /// Hands out the tunnels for the forwarding tasks to run on.
    pub fn into_tunnels(self) -> (r: (Vec<RecvTunnel<E, M>>, Vec<SendTunnel<E, M>>))
        ensures
            r.0@ == self.inbound(),
            r.1@ == self.outbound(),
    {
        (self.receivers, self.senders)
    }
}

impl<E, M> Default for Mediator<E, M> {
    fn default() -> (r: Self)
        ensures
            r.wf(),
            r.identities().len() == 0,
    {
        Mediator::new()
    }
}

impl<E, M> Connector<E, M> {
    /// The identity this connector belongs to.
    pub closed spec fn identity(self) -> E {
        self.source
    }

    pub fn source(&self) -> (r: &E)
        ensures
            *r == self.identity(),
    {
        &self.source
    }

    /// The point that sending `message` to `destination` puts on the channel
    /// to the mediator: the message tagged with this connector's identity.
    pub fn envelope(&self, destination: E, message: M) -> (r: MessagePoint<E, M>)
        where E: PartialEq + Clone
        requires
            identity_laws::<E>(),
        ensures
            r == addressed(destination, self.identity(), message),
    {
        let tag = self.source.clone();
        assert(vstd::pervasive::strictly_cloned(self.source, tag));
        MessagePoint::new(destination, tag, message)
    }

    /// The sending end of the channel to the mediator.
    pub fn outbound(&self) -> &Sender<MessagePoint<E, M>> {
        &self.tx
    }

    /// The receiving end of the channel from the mediator.
    pub fn inbound(&mut self) -> (r: &mut Receiver<MessagePoint<E, M>>)
        ensures
            final(self).identity() == old(self).identity(),
    {
        &mut self.rx
    }

    /// Takes the next message forwarded to this identity without waiting,
    /// with its destination tag stripped. Whether one is there depends on the
    /// channel, so the contract says only that the connector keeps its identity.
    pub fn try_recv(&mut self) -> (r: Result<Message<E, M>, TryRecvError>)
        ensures
            final(self).identity() == old(self).identity(),
    {
        match self.rx.try_recv() {
            Ok(point) => Ok(point.into_message()),
            Err(e) => Err(e),
        }
    }
}

impl<E> MediatorError<E> {
    /// The mediator's own failure for a failed join of its forwarding tasks:
    /// a forwarder's failure as it is, an abnormal end as `JoinHandleError`.
    pub fn from_failure(failure: Failure<MediatorError<E>, tokio::task::JoinError>) -> (r: Self)
        ensures
            failure matches Failure::Routine(e) ==> r == e,
            failure matches Failure::TaskExecution(j) ==> r == MediatorError::<E>::JoinHandleError(j),
    {
        match failure {
            Failure::Routine(e) => e,
            Failure::TaskExecution(j) => MediatorError::JoinHandleError(j),
        }
    }
}

/// A message sent from `a` to `b` reaches `b` as it was sent, with `a` as its
/// source.
pub proof fn law_round_trip<E, M>(a: E, b: E, m: M)
    ensures
        forwarded(a, addressed(b, a, m)).destination == b,
        forwarded(a, addressed(b, a, m)).payload == (Message { source: a, message: m }),
{
}

/// Messages that `a` sends to a registered `b` all go to one send tunnel, the
/// first one tagged `b`, and arrive there one for one, each with its payload
/// and tagged with `a`.
pub proof fn law_stream_to_one_tunnel<E, M>(ids: Seq<E>, a: E, b: E, ms: Seq<M>, slots: Seq<int>)
    requires
        registered(ids, b),
        slots.len() == ms.len(),
        forall|k: int| 0 <= k < slots.len() ==> first_slot(ids, b, #[trigger] slots[k]),
    ensures
        forall|k: int, l: int| 0 <= k < slots.len() && 0 <= l < slots.len() ==> slots[k] == slots[l],
        ms.map_values(|m: M| forwarded(a, addressed(b, a, m)).payload) == ms.map_values(
            |m: M| Message { source: a, message: m },
        ),
{
    assert forall|k: int, l: int| 0 <= k < slots.len() && 0 <= l < slots.len() implies slots[k]
        == slots[l] by {
        let (x, y) = (slots[k], slots[l]);
        assert(first_slot(ids, b, x));
        assert(first_slot(ids, b, y));
        if x < y {
            assert(ids[x] == b);
        } else if y < x {
            assert(ids[y] == b);
        }
    }
    assert(ms.map_values(|m: M| forwarded(a, addressed(b, a, m)).payload) =~= ms.map_values(
        |m: M| Message { source: a, message: m },
    ));
}

/// Once the receiving side of `b` is gone, a message from `a` to `b` comes
/// back as `ChannelClosed` from `a` to `b`, whether the connector of `a` or
/// the forwarding task of `a` was sending it.
pub proof fn law_closed_names_both_ends<E, M>(a: E, b: E, m: M)
    ensures
        closed_error(addressed(b, a, m)) == (MediatorError::ChannelClosed { from: a, to: b }),
        closed_error(forwarded(a, addressed(b, a, m))) == (MediatorError::ChannelClosed {
            from: a,
            to: b,
        }),
{
}

} // verus!
