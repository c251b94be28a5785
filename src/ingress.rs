//! Decisions of the transaction ingress task.
//!
//! The task pulls batches from the DA client one at a time and forwards each
//! into the bounded channel toward the executor. It pulls the next batch only
//! once the previous one is in the channel: when the channel is full, the
//! send waits, and so does the pull. The caller performs each action and
//! reports its outcome as the next event.
use vstd::prelude::*;

verus! {

/// What the ingress task is told.
#[derive(Debug)]
pub enum IngressEvent<B> {
    /// The DA client produced this batch.
    Batch(B),
    /// The DA client's stream ended.
    StreamEnded,
    /// Reading from the DA client failed.
    StreamFailed,
    /// The batch that was being forwarded is in the channel.
    Sent,
    /// The channel's receiver is gone: the node shuts down.
    ChannelClosed,
}

/// Why the ingress task stopped with an error.
#[derive(Clone, Copy, Debug, PartialEq, Eq, Structural)]
pub enum IngressError {
    /// Reading from the DA client failed.
    Ingestion,
    /// An event came that the task's current phase does not admit.
    UnexpectedEvent,
}

/// What the caller does next.
#[derive(Debug)]
pub enum IngressAction<B> {
    /// Wait for the DA client's next batch.
    Pull,
    /// Send this batch into the channel, waiting for room.
    Forward(B),
    /// The task ends with success.
    Finish,
    /// The task ends with this error.
    Fail(IngressError),
}

/// The state of the task as its contracts see it.
pub struct IngressModel<B> {
    /// Every batch the DA client produced, in order.
    pub received: Seq<B>,
    /// Every batch that reached the channel, in order.
    pub forwarded: Seq<B>,
    /// Whether the last batch received is being sent.
    pub in_flight: bool,
    /// Whether the task has stopped.
    pub stopped: bool,
}

/// Nothing is lost, reordered or repeated: the batches that reached the
/// channel, followed by the one being sent, are those received.
pub open spec fn conserves<B>(s: IngressModel<B>) -> bool {
    if s.in_flight {
        s.received.len() > 0 && s.received == s.forwarded.push(s.received.last())
    } else {
        s.received == s.forwarded
    }
}

/// The stopped state, with the action that ends the task.
pub open spec fn stop_ingress<B>(s: IngressModel<B>, action: IngressAction<B>) -> (
    IngressModel<B>,
    IngressAction<B>,
) {
    (IngressModel { stopped: true, ..s }, action)
}

/// How the task reacts to one event.
pub open spec fn ingress_next<B>(s: IngressModel<B>, e: IngressEvent<B>) -> (
    IngressModel<B>,
    IngressAction<B>,
) {
    if s.in_flight {
        match e {
            IngressEvent::Sent => (
                IngressModel {
                    forwarded: s.forwarded.push(s.received.last()),
                    in_flight: false,
                    ..s
                },
                IngressAction::Pull,
            ),
            IngressEvent::ChannelClosed => stop_ingress(s, IngressAction::Finish),
            _ => stop_ingress(s, IngressAction::Fail(IngressError::UnexpectedEvent)),
        }
    } else {
        match e {
            IngressEvent::Batch(b) => (
                IngressModel { received: s.received.push(b), in_flight: true, ..s },
                IngressAction::Forward(b),
            ),
            IngressEvent::StreamEnded => stop_ingress(s, IngressAction::Finish),
            IngressEvent::StreamFailed => stop_ingress(
                s,
                IngressAction::Fail(IngressError::Ingestion),
            ),
            _ => stop_ingress(s, IngressAction::Fail(IngressError::UnexpectedEvent)),
        }
    }
}

/// The state reached, and the actions taken, when the events come one after
/// the other; events after the task stopped are not taken.
pub open spec fn ingress_run<B>(s: IngressModel<B>, events: Seq<IngressEvent<B>>) -> (
    IngressModel<B>,
    Seq<IngressAction<B>>,
)
    decreases events.len(),
{
    if events.len() == 0 || s.stopped {
        (s, Seq::empty())
    } else {
        let (s1, a) = ingress_next(s, events[0]);
        let (sn, rest) = ingress_run(s1, events.drop_first());
        (sn, seq![a] + rest)
    }
}

/// The events of these batches coming from the DA client, each followed by
/// its arrival in the channel.
pub open spec fn deliveries<B>(batches: Seq<B>) -> Seq<IngressEvent<B>>
    decreases batches.len(),
{
    if batches.len() == 0 {
        Seq::empty()
    } else {
        seq![IngressEvent::Batch(batches[0]), IngressEvent::Sent] + deliveries(
            batches.drop_first(),
        )
    }
}

/// Forwarding each of these batches in turn, pulling again after each.
pub open spec fn forwards<B>(batches: Seq<B>) -> Seq<IngressAction<B>>
    decreases batches.len(),
{
    if batches.len() == 0 {
        Seq::empty()
    } else {
        seq![IngressAction::Forward(batches[0]), IngressAction::Pull] + forwards(
            batches.drop_first(),
        )
    }
}

/// Order is kept: the batches the DA client produces are forwarded in the
/// same order, each once, and all of them reach the channel.
pub proof fn lemma_order_preserved<B>(s: IngressModel<B>, batches: Seq<B>)
    requires
        !s.stopped,
        !s.in_flight,
    ensures
        ingress_run(s, deliveries(batches)).0.forwarded == s.forwarded + batches,
        ingress_run(s, deliveries(batches)).0.received == s.received + batches,
        !ingress_run(s, deliveries(batches)).0.in_flight,
        !ingress_run(s, deliveries(batches)).0.stopped,
        ingress_run(s, deliveries(batches)).1 == forwards(batches),
    decreases batches.len(),
{
    let ev = deliveries(batches);
    if batches.len() == 0 {
        assert(s.forwarded + batches =~= s.forwarded);
        assert(s.received + batches =~= s.received);
    } else {
        let b = batches[0];
        let rest = batches.drop_first();
        assert(ev.drop_first() =~= seq![IngressEvent::Sent] + deliveries(rest));
        assert(ev.drop_first().drop_first() =~= deliveries(rest));
        let s1 = ingress_next(s, IngressEvent::Batch(b)).0;
        assert(s1.received == s.received.push(b));
        assert(s1.in_flight && !s1.stopped);
        let s2 = ingress_next(s1, IngressEvent::Sent).0;
        assert(s2.forwarded == s.forwarded.push(b));
        assert(s2.received == s.received.push(b));
        assert(ev[0] == IngressEvent::Batch(b));
        assert(ev.drop_first()[0] == IngressEvent::<B>::Sent);
        let r1 = ingress_run(s1, ev.drop_first());
        let r2 = ingress_run(s2, deliveries(rest));
        assert(r1.0 == r2.0);
        assert(r1.1 == seq![IngressAction::<B>::Pull] + r2.1);
        assert(ingress_run(s, ev).0 == r1.0);
        assert(ingress_run(s, ev).1 == seq![IngressAction::Forward(b)] + r1.1);
        lemma_order_preserved(s2, rest);
        assert(s.forwarded + batches =~= s2.forwarded + rest);
        assert(s.received + batches =~= s2.received + rest);
        assert(ingress_run(s, ev).1 =~= seq![IngressAction::Forward(b)] + (seq![
            IngressAction::Pull,
        ] + forwards(rest)));
        assert(forwards(batches) =~= seq![IngressAction::Forward(b)] + (seq![
            IngressAction::Pull,
        ] + forwards(rest)));
    }
}

/// Backpressure: while a batch waits for room in the channel, no event but
/// its arrival lets the task pull again, and no event drops it: what was
/// received stays, and the batches in the channel plus the waiting one are
/// still exactly those received.
pub proof fn lemma_backpressure<B>(s: IngressModel<B>, e: IngressEvent<B>)
    requires
        s.in_flight,
        conserves(s),
    ensures
        !(e is Sent) ==> !(ingress_next(s, e).1 is Pull),
        !(ingress_next(s, e).1 is Forward),
        ingress_next(s, e).0.received == s.received,
        conserves(ingress_next(s, e).0),
{
}

/// The ingress task.
pub struct Ingress<B> {
    in_flight: bool,
    stopped: bool,
    received: Ghost<Seq<B>>,
    forwarded: Ghost<Seq<B>>,
}

impl<B> View for Ingress<B> {
    type V = IngressModel<B>;

    closed spec fn view(&self) -> IngressModel<B> {
        IngressModel {
            received: self.received@,
            forwarded: self.forwarded@,
            in_flight: self.in_flight,
            stopped: self.stopped,
        }
    }
}

impl<B> Ingress<B> {
    /// A task that has received nothing; its first action is to pull.
    pub fn new() -> (r: (Ingress<B>, IngressAction<B>))
        ensures
            r.0@ == (IngressModel::<B> {
                received: Seq::empty(),
                forwarded: Seq::empty(),
                in_flight: false,
                stopped: false,
            }),
            r.1 is Pull,
    {
        (
            Ingress {
                in_flight: false,
                stopped: false,
                received: Ghost(Seq::empty()),
                forwarded: Ghost(Seq::empty()),
            },
            IngressAction::Pull,
        )
    }

    /// Whether the task has stopped.
    pub fn is_stopped(&self) -> (r: bool)
        ensures
            r == self@.stopped,
    {
        self.stopped
    }

    /// Reacts to one event and says what to do next.
    pub fn step(&mut self, e: IngressEvent<B>) -> (r: IngressAction<B>)
        requires
            !old(self)@.stopped,
        ensures
            (final(self)@, r) == ingress_next(old(self)@, e),
            conserves(old(self)@) ==> conserves(final(self)@),
    {
        let ghost s = self@;
        if self.in_flight {
            match e {
                IngressEvent::Sent => {
                    self.forwarded = Ghost(self.forwarded@.push(self.received@.last()));
                    self.in_flight = false;
                    IngressAction::Pull
                },
                IngressEvent::ChannelClosed => {
                    self.stopped = true;
                    IngressAction::Finish
                },
                _ => {
                    self.stopped = true;
                    IngressAction::Fail(IngressError::UnexpectedEvent)
                },
            }
        } else {
            match e {
                IngressEvent::Batch(b) => {
                    self.received = Ghost(self.received@.push(b));
                    self.in_flight = true;
                    proof {
                        if conserves(s) {
                            assert(self.received@.last() == b);
                        }
                    }
                    IngressAction::Forward(b)
                },
                IngressEvent::StreamEnded => {
                    self.stopped = true;
                    IngressAction::Finish
                },
                IngressEvent::StreamFailed => {
                    self.stopped = true;
                    IngressAction::Fail(IngressError::Ingestion)
                },
                _ => {
                    self.stopped = true;
                    IngressAction::Fail(IngressError::UnexpectedEvent)
                },
            }
        }
    }
}

} // verus!
