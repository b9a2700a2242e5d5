//! The concurrent map of the `dashmap` crate, as the registry uses it: keyed
//! by a subscriber's identifier, holding the sending end of its channel.

use crate::background::registry::{ids_of, Subscriber, SubscriberId};
use crate::trusted::channel::EventSender;
use dashmap::DashMap;
use std::collections::hash_map::RandomState;
use vstd::prelude::*;

verus! {

/// `dashmap::DashMap`; nothing inside it is read here.
#[verifier::external_type_specification]
#[verifier::external_body]
#[verifier::reject_recursive_types(K)]
#[verifier::reject_recursive_types(V)]
#[verifier::reject_recursive_types(S)]
pub struct ExDashMap<K, V, S>(DashMap<K, V, S>);

/// The map from identifiers to senders that the registry keeps.
pub type SenderMap = DashMap<u128, EventSender, RandomState>;

/// The keys that `map` holds an entry for.
pub uninterp spec fn held_ids(map: SenderMap) -> Set<u128>;

/// Calls `DashMap::new`: a map without entries.
#[verifier::external_body]
pub(crate) fn map_new() -> (map: SenderMap)
    ensures
        held_ids(map) == Set::<u128>::empty(),
{
    DashMap::new()
}

/// Calls `DashMap::insert`: afterwards the map holds an entry for `id`, and
/// every other entry is as before. The sender that `id` had before, if any,
/// is handed back.
#[verifier::external_body]
pub(crate) fn map_insert(map: &mut SenderMap, id: u128, tx: EventSender) -> (previous: Option<
    EventSender,
>)
    ensures
        held_ids(*final(map)) == held_ids(*old(map)).insert(id),
        previous is Some <==> held_ids(*old(map)).contains(id),
{
    map.insert(id, tx)
}

/// Calls `DashMap::remove`: afterwards the map holds no entry for `id`, and
/// every other entry is as before. The entry that was removed, if there was
/// one, is handed back under its key.
#[verifier::external_body]
pub(crate) fn map_remove(map: &mut SenderMap, id: u128) -> (removed: Option<(u128, EventSender)>)
    ensures
        held_ids(*final(map)) == held_ids(*old(map)).remove(id),
        removed is Some <==> held_ids(*old(map)).contains(id),
        removed matches Some(entry) ==> entry.0 == id,
{
    map.remove(&id)
}

/// Calls `DashMap::len`: the number of entries.
#[verifier::external_body]
pub(crate) fn map_len(map: &SenderMap) -> (count: usize)
    ensures
        count == held_ids(*map).len(),
{
    map.len()
}

/// Walks `DashMap::iter` once and copies each entry out as a subscriber: its
/// key as the identifier, a clone of its sender. Every entry comes out
/// exactly once; the order is the map's own and is not promised.
#[verifier::external_body]
pub(crate) fn map_snapshot(map: &SenderMap) -> (entries: Vec<Subscriber>)
    ensures
        ids_of(entries@).no_duplicates(),
        ids_of(entries@).to_set() == held_ids(*map),
{
    map.iter()
        .map(|entry| Subscriber {
            id: SubscriberId::from_u128(*entry.key()),
            tx: entry.value().clone(),
        })
        .collect()
}

} // verus!
