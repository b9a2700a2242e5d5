//! Handing one event to every subscriber that is registered.
//!
//! A round walks the subscribers one after the other. The caller performs
//! each send, waiting at most [`SEND_TIMEOUT_SECS`], and reports how it
//! ended; the round answers with the next send. A send that times out or
//! finds the channel closed is noted and passed over: the subscriber stays
//! registered and the subscribers after it are still served.

use crate::background::decoder::DecodedEvent;
use crate::background::registry::{ids_of, PostsSubscriptionManager, Subscriber};
use std::sync::Arc;
use vstd::prelude::*;

verus! {

/// How long one send may wait for room in a subscriber's channel, in seconds.
pub const SEND_TIMEOUT_SECS: u64 = 5;

/// How one send ended.
#[derive(Debug, Clone, Copy, PartialEq, Eq, Structural)]
pub enum SendOutcome {
    /// The event is in the subscriber's channel.
    Delivered,
    /// The channel stayed full for the whole wait.
    TimedOut,
    /// The subscriber has dropped its end of the channel.
    Closed,
}

/// A round as a value: the event, the subscribers it goes to in order, and
/// how the sends made so far ended.
pub struct RoundModel {
    pub event: serde_json::Value,
    pub targets: Seq<u128>,
    pub outcomes: Seq<SendOutcome>,
}

impl RoundModel {
    /// A round that has sent nothing yet.
    pub open spec fn begin(event: serde_json::Value, targets: Seq<u128>) -> RoundModel {
        RoundModel { event, targets, outcomes: Seq::empty() }
    }

    /// Whether every target has had its send.
    pub open spec fn finished(self) -> bool {
        self.outcomes.len() >= self.targets.len()
    }

    /// The subscriber whose send is owed next.
    pub open spec fn pending(self) -> Option<u128> {
        if self.finished() {
            None
        } else {
            Some(self.targets[self.outcomes.len() as int])
        }
    }

    /// The round after the pending send ended in `outcome`. A finished round
    /// has no pending send and stays as it is.
    pub open spec fn record(self, outcome: SendOutcome) -> RoundModel {
        if self.finished() {
            self
        } else {
            RoundModel { outcomes: self.outcomes.push(outcome), ..self }
        }
    }

    /// The round after its next sends ended as `outcomes` say, in order.
    pub open spec fn run(self, outcomes: Seq<SendOutcome>) -> RoundModel
        decreases outcomes.len(),
    {
        if outcomes.len() == 0 {
            self
        } else {
            self.run(outcomes.drop_last()).record(outcomes.last())
        }
    }

    /// Whether a send of this round has put the event into `id`'s channel.
    pub open spec fn delivered_to(self, id: u128) -> bool {
        exists|k: int|
            0 <= k < self.outcomes.len() && k < self.targets.len() && self.targets[k] == id
                && #[trigger] self.outcomes[k] == SendOutcome::Delivered
    }
}

/// One event on its way to the subscribers that were registered when the
/// round began.
pub struct DispatchRound {
    event: Arc<DecodedEvent>,
    targets: Vec<Subscriber>,
    outcomes: Vec<SendOutcome>,
}

impl View for DispatchRound {
    type V = RoundModel;

    closed spec fn view(&self) -> RoundModel {
        RoundModel { event: self.event@, targets: ids_of(self.targets@), outcomes: self.outcomes@ }
    }
}

impl DispatchRound {
    /// The subscribers of the round with their channels, in sending order.
    pub closed spec fn subscribers(&self) -> Seq<Subscriber> {
        self.targets@
    }

    /// A round that takes `event` to `targets`, in their order.
    pub fn begin(event: Arc<DecodedEvent>, targets: Vec<Subscriber>) -> (round: Self)
        ensures
            round@ == RoundModel::begin(event@, ids_of(targets@)),
            round.subscribers() == targets@,
    {
        DispatchRound { event, targets, outcomes: Vec::new() }
    }

    /// A round that takes `event` to every subscriber registered now, each
    /// once, in the registry's own order.
    pub fn over(registry: &PostsSubscriptionManager, event: Arc<DecodedEvent>) -> (round: Self)
        ensures
            round@.event == event@,
            round@.outcomes == Seq::<SendOutcome>::empty(),
            round@.targets.no_duplicates(),
            round@.targets.to_set() == registry@.live,
    {
        DispatchRound::begin(event, registry.subscribers())
    }

    /// The event of the round: the same one for every subscriber.
    pub fn event(&self) -> (event: &Arc<DecodedEvent>)
        ensures
            event@ == self@.event,
    {
        &self.event
    }

    /// Whether every target has had its send.
    pub fn is_finished(&self) -> (done: bool)
        ensures
            done == self@.finished(),
    {
        self.outcomes.len() >= self.targets.len()
    }

    /// The subscriber whose send is owed next, or `None` once the round is finished.
    pub fn current(&self) -> (target: Option<&Subscriber>)
        ensures
            match target {
                Some(subscriber) => self@.pending() == Some(subscriber.id@) && *subscriber
                    == self.subscribers()[self@.outcomes.len() as int],
                None => self@.pending() is None,
            },
    {
        let done = self.outcomes.len();
        if done < self.targets.len() {
            Some(&self.targets[done])
        } else {
            None
        }
    }

    /// Notes how the pending send ended and moves on to the next subscriber,
    /// whatever the outcome was.
    pub fn record(&mut self, outcome: SendOutcome)
        ensures
            final(self)@ == old(self)@.record(outcome),
            final(self).subscribers() == old(self).subscribers(),
    {
        if self.outcomes.len() < self.targets.len() {
            self.outcomes.push(outcome);
        }
    }

    /// How the sends made so far ended, in sending order.
    pub fn outcomes(&self) -> (outcomes: &Vec<SendOutcome>)
        ensures
            outcomes@ == self@.outcomes,
    {
        &self.outcomes
    }
}

} // verus!
