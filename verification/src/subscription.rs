//! One client's place in the stream of events.
//!
//! A subscription starts `Connected`, is `Streaming` from its first event on,
//! and ends either `Closed` or `Lagged`. It never leaves an end: a client
//! that wants more subscribes anew. Waiting for the channel is the caller's
//! part; what to do with each thing the channel hands over is decided here.

use tokio::sync::broadcast::error::RecvError;
use tokio::sync::broadcast::Receiver;
use vstd::prelude::*;

verus! {

/// Where a subscription stands.
#[derive(Clone, Copy, Debug, PartialEq, Eq, Structural)]
pub enum Phase {
    /// Subscribed; nothing has been delivered yet.
    Connected,
    /// At least one event has been forwarded, and more may follow.
    Streaming,
    /// Ended: the client went away, or the topic has no publisher left.
    Closed,
    /// Ended: the client fell so far behind that events were overwritten
    /// before it read them.
    Lagged,
}

impl Phase {
    /// Whether the subscription has ended.
    pub open spec fn terminal(self) -> bool {
        self is Closed || self is Lagged
    }

    /// Whether the subscription has ended.
    pub fn is_terminal(self) -> (ended: bool)
        ensures
            ended == self.terminal(),
    {
        match self {
            Phase::Connected => false,
            Phase::Streaming => false,
            Phase::Closed => true,
            Phase::Lagged => true,
        }
    }
}

/// What the channel hands to a subscription that asks for its next event.
#[derive(Debug)]
pub enum Delivery<T> {
    /// The next event, in the order of publishing.
    Event(T),
    /// This many events were overwritten unread.
    Lagged(u64),
    /// No publisher is left, and every event has been read.
    Closed,
}

/// What the caller is to do after a delivery.
#[derive(Debug)]
pub enum Action<T> {
    /// Send the event to the client as one frame, then ask for the next.
    Forward(T),
    /// End the stream.
    Finish,
}

/// The phase after a delivery, and what to do about the delivery.
///
/// An event is forwarded as it is. A lag or a closed topic ends the
/// subscription, and an ended subscription forwards nothing any more.
pub open spec fn step<T>(phase: Phase, delivery: Delivery<T>) -> (Phase, Action<T>) {
    if phase.terminal() {
        (phase, Action::Finish)
    } else {
        match delivery {
            Delivery::Event(event) => (Phase::Streaming, Action::Forward(event)),
            Delivery::Lagged(_) => (Phase::Lagged, Action::Finish),
            Delivery::Closed => (Phase::Closed, Action::Finish),
        }
    }
}

/// The phase after the client has gone away.
pub open spec fn hang_up(phase: Phase) -> Phase {
    if phase.terminal() {
        phase
    } else {
        Phase::Closed
    }
}

/// The phase after a run of deliveries, and the events forwarded during it,
/// in the order of forwarding.
pub open spec fn run<T>(phase: Phase, deliveries: Seq<Delivery<T>>) -> (Phase, Seq<T>)
    decreases deliveries.len(),
{
    if deliveries.len() == 0 {
        (phase, Seq::empty())
    } else {
        let first = step(phase, deliveries.first());
        let rest = run(first.0, deliveries.drop_first());
        match first.1 {
            Action::Forward(event) => (rest.0, seq![event] + rest.1),
            Action::Finish => rest,
        }
    }
}

/// Computes `step`.
pub fn advance<T>(phase: Phase, delivery: Delivery<T>) -> (next: (Phase, Action<T>))
    ensures
        next == step(phase, delivery),
{
    if phase.is_terminal() {
        (phase, Action::Finish)
    } else {
        match delivery {
            Delivery::Event(event) => (Phase::Streaming, Action::Forward(event)),
            Delivery::Lagged(_) => (Phase::Lagged, Action::Finish),
            Delivery::Closed => (Phase::Closed, Action::Finish),
        }
    }
}

/// The delivery that a result of the channel's `recv` stands for.
pub open spec fn delivery_from<T>(outcome: Result<T, RecvError>) -> Delivery<T> {
    match outcome {
        Ok(event) => Delivery::Event(event),
        Err(RecvError::Lagged(skipped)) => Delivery::Lagged(skipped),
        Err(RecvError::Closed) => Delivery::Closed,
    }
}

/// Reads a delivery off what the channel's `recv` returned.
pub fn delivery_of<T>(outcome: Result<T, RecvError>) -> (delivery: Delivery<T>)
    ensures
        delivery == delivery_from(outcome),
{
    match outcome {
        Ok(event) => Delivery::Event(event),
        Err(RecvError::Lagged(skipped)) => Delivery::Lagged(skipped),
        Err(RecvError::Closed) => Delivery::Closed,
    }
}

/// A client's cursor into the topic, with the phase it has reached.
#[verifier::reject_recursive_types(T)]
pub struct Subscription<T> {
    rx: Receiver<T>,
    phase: Phase,
}

impl<T> View for Subscription<T> {
    type V = Phase;

    closed spec fn view(&self) -> Phase {
        self.phase
    }
}

impl<T> Subscription<T> {
    /// The receiving end of the channel that the subscription reads from.
    pub closed spec fn receiver(&self) -> Receiver<T> {
        self.rx
    }

    /// A fresh subscription that reads from `rx`.
    pub(crate) fn connected(rx: Receiver<T>) -> (subscription: Self)
        ensures
            subscription@ == Phase::Connected,
            subscription.receiver() == rx,
    {
        Subscription { rx, phase: Phase::Connected }
    }

    /// The phase that the subscription has reached.
    pub fn phase(&self) -> (phase: Phase)
        ensures
            phase == self@,
    {
        self.phase
    }

    /// Lends the receiving end, for the caller to wait on it. What the
    /// caller does to the receiver is done to the subscription's own, and
    /// the phase is left as it is.
    pub fn receiver_mut(&mut self) -> (rx: &mut Receiver<T>)
        ensures
            *rx == old(self).receiver(),
            final(self).receiver() == *final(rx),
            final(self)@ == old(self)@,
    {
        &mut self.rx
    }

    /// Takes a delivery: moves to the next phase and says what to do.
    pub fn on_delivery(&mut self, delivery: Delivery<T>) -> (action: Action<T>)
        ensures
            (final(self)@, action) == step(old(self)@, delivery),
            final(self).receiver() == old(self).receiver(),
    {
        let (phase, action) = advance(self.phase, delivery);
        self.phase = phase;
        action
    }

    /// Takes what the channel's `recv` returned: an event is forwarded
    /// unless the subscription has ended, and an error ends it.
    pub fn on_recv(&mut self, outcome: Result<T, RecvError>) -> (action: Action<T>)
        ensures
            (final(self)@, action) == step(old(self)@, delivery_from(outcome)),
            final(self).receiver() == old(self).receiver(),
    {
        let delivery = delivery_of(outcome);
        self.on_delivery(delivery)
    }

    /// Records that the client has gone away.
    pub fn disconnect(&mut self)
        ensures
            final(self)@ == hang_up(old(self)@),
            final(self).receiver() == old(self).receiver(),
    {
        if !self.phase.is_terminal() {
            self.phase = Phase::Closed;
        }
    }
}

/// An ended subscription stays where it ended and forwards nothing,
/// whatever is delivered to it afterwards.
pub proof fn lemma_ended_stays_ended<T>(phase: Phase, deliveries: Seq<Delivery<T>>)
    requires
        phase.terminal(),
    ensures
        run(phase, deliveries) == (phase, Seq::<T>::empty()),
    decreases deliveries.len(),
{
    if deliveries.len() > 0 {
        lemma_ended_stays_ended(phase, deliveries.drop_first());
    }
}

/// A live subscription forwards the events that are delivered to it, each
/// once and in the order of delivery, up to the first delivery that is no
/// event. There it ends, as `Lagged` or as `Closed`, and forwards nothing of
/// what follows. `k` is the number of deliveries before that one.
pub proof fn lemma_forwards_until_first_failure<T>(
    phase: Phase,
    deliveries: Seq<Delivery<T>>,
    k: int,
)
    requires
        !phase.terminal(),
        0 <= k <= deliveries.len(),
        forall|i: int| 0 <= i < k ==> deliveries[i] is Event,
        k < deliveries.len() ==> !(deliveries[k] is Event),
    ensures
        run(phase, deliveries).1.len() == k,
        forall|i: int| 0 <= i < k ==> run(phase, deliveries).1[i] == deliveries[i]->Event_0,
        k < deliveries.len() ==> run(phase, deliveries).0 == (if deliveries[k] is Lagged {
            Phase::Lagged
        } else {
            Phase::Closed
        }),
        k == deliveries.len() ==> run(phase, deliveries).0 == (if k == 0 {
            phase
        } else {
            Phase::Streaming
        }),
    decreases deliveries.len(),
{
    if deliveries.len() > 0 {
        let rest = deliveries.drop_first();
        let first = step(phase, deliveries.first());
        if k == 0 {
            lemma_ended_stays_ended(first.0, rest);
        } else {
            assert(deliveries[0] is Event);
            assert forall|i: int| 0 <= i < k - 1 implies rest[i] is Event by {
                assert(rest[i] == deliveries[i + 1]);
            }
            if k < deliveries.len() {
                assert(rest[k - 1] == deliveries[k]);
            }
            lemma_forwards_until_first_failure(Phase::Streaming, rest, k - 1);
            let forwarded = run(phase, deliveries).1;
            let later = run(Phase::Streaming, rest).1;
            assert(forwarded == seq![deliveries[0]->Event_0] + later);
            assert forall|i: int| 0 <= i < k implies forwarded[i] == deliveries[i]->Event_0 by {
                if i > 0 {
                    assert(forwarded[i] == later[i - 1]);
                    assert(rest[i - 1] == deliveries[i]);
                }
            }
        }
    }
}

} // verus!
