//! Who is subscribed: identifiers, channels, and the registry of both.

use crate::trusted::channel::{bounded_channel, receiver_bound, EventReceiver, EventSender};
use crate::trusted::concurrent_map::{
    held_ids, map_insert, map_len, map_new, map_remove, map_snapshot, SenderMap,
};
use crate::trusted::ident::fresh_v7_bits;
use vstd::prelude::*;

verus! {

/// How many events a subscriber's channel buffers.
pub const CHANNEL_CAPACITY: usize = 24;

/// Names one subscriber. Identifiers are ordered by the time they were
/// issued and are never issued twice.
#[derive(Debug, Clone, Copy, PartialEq, Eq, Structural, Hash)]
pub struct SubscriberId {
    bits: u128,
}

impl View for SubscriberId {
    type V = u128;

    closed spec fn view(&self) -> u128 {
        self.bits
    }
}

impl SubscriberId {
    /// The identifier with the given number.
    pub fn from_u128(bits: u128) -> (id: Self)
        ensures
            id@ == bits,
    {
        SubscriberId { bits }
    }

    /// The identifier's number.
    pub fn as_u128(&self) -> (bits: u128)
        ensures
            bits == self@,
    {
        self.bits
    }
}

/// A subscriber as the broker sees it: its identifier and the end of its
/// channel that events are written to.
pub struct Subscriber {
    pub id: SubscriberId,
    pub tx: EventSender,
}

/// What a new subscriber is handed: its identifier and the end of its
/// channel that events are read from.
pub struct Subscription {
    pub id: SubscriberId,
    pub rx: EventReceiver,
}

/// The identifiers of a sequence of subscribers, in the same order.
pub open spec fn ids_of(subscribers: Seq<Subscriber>) -> Seq<u128> {
    subscribers.map_values(|s: Subscriber| s.id@)
}

/// The registry as a value: the identifiers that are live, and the highest
/// identifier issued so far.
pub struct RegistryModel {
    pub live: Set<u128>,
    pub last_issued: u128,
}

impl RegistryModel {
    /// The registry before anyone has subscribed.
    pub open spec fn empty() -> RegistryModel {
        RegistryModel { live: Set::empty(), last_issued: 0 }
    }

    /// Finitely many identifiers are live, and none lies above the last one issued.
    pub open spec fn wf(self) -> bool {
        &&& self.live.finite()
        &&& forall|id: u128| self.live.contains(id) ==> id <= self.last_issued
    }

    /// Whether an identifier above every one issued so far still exists.
    pub open spec fn has_headroom(self) -> bool {
        self.last_issued < u128::MAX
    }

    /// The identifier the next subscriber gets when the clock proposes
    /// `candidate`: the proposal if it lies above every identifier issued so
    /// far, else the successor of the last one issued.
    pub open spec fn next_id(self, candidate: u128) -> u128 {
        if candidate > self.last_issued {
            candidate
        } else {
            (self.last_issued + 1) as u128
        }
    }

    /// The registry after a subscription for which the clock proposed `candidate`.
    pub open spec fn subscribe(self, candidate: u128) -> RegistryModel {
        RegistryModel {
            live: self.live.insert(self.next_id(candidate)),
            last_issued: self.next_id(candidate),
        }
    }

    /// What unsubscribing `id` hands back: the identifier if it was live.
    pub open spec fn removed(self, id: u128) -> Option<u128> {
        if self.live.contains(id) {
            Some(id)
        } else {
            None
        }
    }

    /// The registry after `id` was unsubscribed.
    pub open spec fn unsubscribe(self, id: u128) -> RegistryModel {
        RegistryModel { live: self.live.remove(id), last_issued: self.last_issued }
    }

    /// How many subscribers are live.
    pub open spec fn count(self) -> nat {
        self.live.len()
    }
}

/// The registry of live subscribers.
pub struct PostsSubscriptionManager {
    subscriptions: SenderMap,
    last_issued: u128,
}

impl View for PostsSubscriptionManager {
    type V = RegistryModel;

    closed spec fn view(&self) -> RegistryModel {
        RegistryModel { live: held_ids(self.subscriptions), last_issued: self.last_issued }
    }
}

impl PostsSubscriptionManager {
    /// A registry without subscribers.
    pub fn new() -> (registry: Self)
        ensures
            registry@ == RegistryModel::empty(),
            registry@.wf(),
    {
        PostsSubscriptionManager { subscriptions: map_new(), last_issued: 0 }
    }

    /// The highest identifier issued so far, zero before the first.
    pub fn last_issued(&self) -> (bits: u128)
        ensures
            bits == self@.last_issued,
    {
        self.last_issued
    }

    /// How many subscribers are live.
    pub fn len(&self) -> (count: usize)
        ensures
            count == self@.count(),
    {
        map_len(&self.subscriptions)
    }

    /// Registers a new subscriber under the identifier that follows from
    /// `candidate`, with a fresh channel of [`CHANNEL_CAPACITY`] events.
    pub fn subscribe_with(&mut self, candidate: u128) -> (subscription: Subscription)
        requires
            old(self)@.has_headroom(),
        ensures
            final(self)@ == old(self)@.subscribe(candidate),
            subscription.id@ == old(self)@.next_id(candidate),
            receiver_bound(subscription.rx) == CHANNEL_CAPACITY,
            old(self)@.wf() ==> final(self)@.wf(),
    {
        let id: u128 = if candidate > self.last_issued {
            candidate
        } else {
            self.last_issued + 1
        };
        let (tx, rx) = bounded_channel(CHANNEL_CAPACITY);
        self.last_issued = id;
        let _ = map_insert(&mut self.subscriptions, id, tx);
        Subscription { id: SubscriberId { bits: id }, rx }
    }

    /// Registers a new subscriber under a fresh time-ordered identifier.
    /// Whatever the clock proposes, the identifier lies above every one
    /// issued before, and the registry is left as if the clock had proposed
    /// that very identifier: nobody else is touched.
    pub fn subscribe(&mut self) -> (subscription: Subscription)
        requires
            old(self)@.has_headroom(),
        ensures
            subscription.id@ > old(self)@.last_issued,
            final(self)@ == old(self)@.subscribe(subscription.id@),
            receiver_bound(subscription.rx) == CHANNEL_CAPACITY,
            old(self)@.wf() ==> final(self)@.wf(),
    {
        let candidate = fresh_v7_bits();
        self.subscribe_with(candidate)
    }

    /// Registers a new subscriber if an identifier is left to issue, and
    /// leaves the registry untouched if none is.
    pub fn try_subscribe(&mut self) -> (subscription: Option<Subscription>)
        ensures
            subscription is Some <==> old(self)@.has_headroom(),
            match subscription {
                Some(granted) => {
                    &&& granted.id@ > old(self)@.last_issued
                    &&& final(self)@ == old(self)@.subscribe(granted.id@)
                    &&& receiver_bound(granted.rx) == CHANNEL_CAPACITY
                },
                None => final(self)@ == old(self)@,
            },
            old(self)@.wf() ==> final(self)@.wf(),
    {
        if self.last_issued < u128::MAX {
            Some(self.subscribe())
        } else {
            None
        }
    }

    /// Removes a subscriber. Hands the identifier back if it was live, and
    /// `None` if it was not: unsubscribing twice is safe.
    pub fn unsubscribe(&mut self, id: &SubscriberId) -> (removed: Option<SubscriberId>)
        ensures
            final(self)@ == old(self)@.unsubscribe(id@),
            match removed {
                Some(r) => old(self)@.removed(id@) == Some(r@),
                None => old(self)@.removed(id@) is None,
            },
            old(self)@.wf() ==> final(self)@.wf(),
    {
        match map_remove(&mut self.subscriptions, id.bits) {
            Some((bits, _)) => Some(SubscriberId { bits }),
            None => None,
        }
    }

    /// The live subscribers, each once, in no promised order.
    pub fn subscribers(&self) -> (snapshot: Vec<Subscriber>)
        ensures
            ids_of(snapshot@).no_duplicates(),
            ids_of(snapshot@).to_set() == self@.live,
    {
        map_snapshot(&self.subscriptions)
    }
}

} // verus!
