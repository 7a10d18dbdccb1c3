//! Best-effort delivery of a batch: every message is attempted once, in
//! order; a failed delivery is recorded and the next one is still tried.

use vstd::prelude::*;
use crate::model::{send_views, OutboundSend, OutboundSendView};

verus! {

/// The messages of one batch, how many of them were attempted, and the
/// positions of those that the gateway did not take.
pub struct Outbox {
    messages: Vec<OutboundSend>,
    next: usize,
    failures: Vec<usize>,
}

/// What an [`Outbox`] holds, as plain values.
pub struct OutboxView {
    pub messages: Seq<OutboundSendView>,
    pub next: nat,
    pub failures: Seq<nat>,
}

impl OutboxView {
    /// The message to attempt next, if any is left.
    pub open spec fn current(self) -> Option<OutboundSendView> {
        if self.next < self.messages.len() {
            Some(self.messages[self.next as int])
        } else {
            None
        }
    }

    /// The outbox after the current message was attempted. Delivered or
    /// not, the next message becomes current; a failure adds the position
    /// to the record. With nothing current, nothing changes.
    pub open spec fn recorded(self, delivered: bool) -> OutboxView {
        if self.next >= self.messages.len() {
            self
        } else {
            OutboxView {
                messages: self.messages,
                next: self.next + 1,
                failures: if delivered {
                    self.failures
                } else {
                    self.failures.push(self.next)
                },
            }
        }
    }
}

/// The positions in `v` as natural numbers.
pub open spec fn positions(v: Seq<usize>) -> Seq<nat> {
    Seq::new(v.len(), |i: int| v[i] as nat)
}

/// A fresh outbox over `messages`.
pub open spec fn fresh_outbox(messages: Seq<OutboundSendView>) -> OutboxView {
    OutboxView { messages, next: 0, failures: Seq::empty() }
}

impl View for Outbox {
    type V = OutboxView;

    closed spec fn view(&self) -> OutboxView {
        OutboxView {
            messages: send_views(self.messages@),
            next: self.next as nat,
            failures: positions(self.failures@),
        }
    }
}

impl Outbox {
    #[verifier::type_invariant]
    spec fn inv(self) -> bool {
        self.next <= self.messages@.len()
    }

    /// An outbox that has attempted nothing yet.
    pub fn new(messages: Vec<OutboundSend>) -> (r: Outbox)
        ensures
            r@ == fresh_outbox(send_views(messages@)),
    {
        let r = Outbox { messages, next: 0, failures: Vec::new() };
        assert(positions(r.failures@) =~= Seq::empty());
        r
    }

    /// The message to attempt next, if any is left.
    pub fn current(&self) -> (r: Option<&OutboundSend>)
        ensures
            match r {
                Some(m) => self@.current() == Some(m@),
                None => self@.current() is None,
            },
    {
        if self.next < self.messages.len() {
            Some(&self.messages[self.next])
        } else {
            None
        }
    }

    /// Records whether the current message was delivered and moves on.
    pub fn record(self, delivered: bool) -> (r: Outbox)
        ensures
            r@ == self@.recorded(delivered),
    {
        proof {
            use_type_invariant(&self);
        }
        if self.next >= self.messages.len() {
            self
        } else {
            let mut failures = self.failures;
            if !delivered {
                failures.push(self.next);
                assert(positions(failures@) =~= positions(self.failures@).push(self.next as nat));
            }
            Outbox { messages: self.messages, next: self.next + 1, failures }
        }
    }

    /// The positions of the messages that were not delivered, in the
    /// order in which they were attempted.
    pub fn failures(&self) -> (r: &Vec<usize>)
        ensures
            positions(r@) == self@.failures,
    {
        &self.failures
    }
}

/// The outbox over `messages` after one attempt per entry of `outcomes`;
/// an entry tells whether that attempt delivered.
pub open spec fn outbox_after(messages: Seq<OutboundSendView>, outcomes: Seq<bool>) -> OutboxView
    decreases outcomes.len(),
{
    if outcomes.len() == 0 {
        fresh_outbox(messages)
    } else {
        outbox_after(messages, outcomes.drop_last()).recorded(outcomes.last())
    }
}

/// Delivery is best effort: whatever the earlier attempts came to, after
/// `k` attempts the message at position `k` is the one to attempt, and
/// after as many attempts as there are messages none is left. The record
/// holds only positions that were attempted and failed.
pub proof fn lemma_failures_do_not_stop_delivery(
    messages: Seq<OutboundSendView>,
    outcomes: Seq<bool>,
)
    requires
        outcomes.len() <= messages.len(),
    ensures
        outbox_after(messages, outcomes).messages == messages,
        outbox_after(messages, outcomes).next == outcomes.len(),
        outcomes.len() < messages.len() ==> outbox_after(messages, outcomes).current() == Some(
            messages[outcomes.len() as int],
        ),
        outcomes.len() == messages.len() ==> outbox_after(messages, outcomes).current() is None,
        forall|j: int|
            0 <= j < outbox_after(messages, outcomes).failures.len() ==> {
                let p = #[trigger] outbox_after(messages, outcomes).failures[j];
                p < outcomes.len() && !outcomes[p as int]
            },
        forall|p: int|
            0 <= p < outcomes.len() && !outcomes[p] ==> outbox_after(
                messages,
                outcomes,
            ).failures.contains(p as nat),
    decreases outcomes.len(),
{
    if outcomes.len() > 0 {
        let before = outcomes.drop_last();
        lemma_failures_do_not_stop_delivery(messages, before);
        let prev = outbox_after(messages, before);
        let now = outbox_after(messages, outcomes);
        assert(now == prev.recorded(outcomes.last()));
        assert forall|j: int| 0 <= j < now.failures.len() implies {
            let p = #[trigger] now.failures[j];
            p < outcomes.len() && !outcomes[p as int]
        } by {
            if j < prev.failures.len() {
                assert(now.failures[j] == prev.failures[j]);
                assert(before[prev.failures[j] as int] == outcomes[prev.failures[j] as int]);
            }
        }
        assert forall|p: int| 0 <= p < outcomes.len() && !outcomes[p] implies now.failures.contains(
            p as nat,
        ) by {
            if p < before.len() {
                assert(before[p] == outcomes[p]);
                let j = choose|j: int| 0 <= j < prev.failures.len() && prev.failures[j] == p as nat;
                assert(now.failures[j] == p as nat);
            } else {
                assert(now.failures[now.failures.len() - 1] == p as nat);
            }
        }
    }
}

} // verus!
