use posts_broker::background::decoder::decode;
use posts_broker::background::registry::{
    PostsSubscriptionManager, SubscriberId, CHANNEL_CAPACITY,
};
use std::sync::Arc;
use tokio::sync::mpsc::error::{TryRecvError, TrySendError};

#[test]
fn a_new_registry_is_empty() {
    let registry = PostsSubscriptionManager::new();
    assert_eq!(registry.len(), 0);
    assert_eq!(registry.last_issued(), 0);
    assert!(registry.subscribers().is_empty());
}

#[test]
fn identifiers_are_distinct_and_increase() {
    let mut registry = PostsSubscriptionManager::new();
    let mut ids = Vec::new();
    for _ in 0..200 {
        ids.push(registry.subscribe().id.as_u128());
    }
    for pair in ids.windows(2) {
        assert!(pair[0] < pair[1], "{:x} then {:x}", pair[0], pair[1]);
    }
    assert_eq!(registry.len(), 200);
    assert_eq!(registry.last_issued(), *ids.last().unwrap());
}

#[test]
fn identifiers_come_from_the_clock() {
    let mut registry = PostsSubscriptionManager::new();
    let before = uuid::Uuid::now_v7();
    let id = registry.subscribe().id;
    let after = uuid::Uuid::now_v7();
    let issued = uuid::Uuid::from_u128(id.as_u128());
    assert_eq!(issued.get_version_num(), 7);
    assert!(before < issued && issued < after);
}

#[test]
fn a_proposal_above_the_last_identifier_is_taken() {
    let mut registry = PostsSubscriptionManager::new();
    assert_eq!(registry.subscribe_with(10).id.as_u128(), 10);
    assert_eq!(registry.subscribe_with(100).id.as_u128(), 100);
    assert_eq!(registry.last_issued(), 100);
}

#[test]
fn a_proposal_that_does_not_advance_is_replaced_by_the_successor() {
    let mut registry = PostsSubscriptionManager::new();
    assert_eq!(registry.subscribe_with(0).id.as_u128(), 1);
    assert_eq!(registry.subscribe_with(10).id.as_u128(), 10);
    assert_eq!(registry.subscribe_with(10).id.as_u128(), 11);
    assert_eq!(registry.subscribe_with(5).id.as_u128(), 12);
    assert_eq!(registry.subscribe_with(13).id.as_u128(), 13);
    assert_eq!(registry.len(), 5);
    assert_eq!(registry.last_issued(), 13);
}

#[test]
fn an_identifier_is_not_reused_after_removal() {
    let mut registry = PostsSubscriptionManager::new();
    let first = registry.subscribe_with(40).id;
    assert_eq!(registry.unsubscribe(&first), Some(first));
    let second = registry.subscribe_with(40).id;
    assert_eq!(second.as_u128(), 41);
    assert_eq!(registry.len(), 1);
}

#[test]
fn try_subscribe_grants_while_identifiers_are_left() {
    let mut registry = PostsSubscriptionManager::new();
    let first = registry.try_subscribe().expect("identifiers are left");
    let second = registry.try_subscribe().expect("identifiers are left");
    assert!(first.id.as_u128() < second.id.as_u128());
    assert_eq!(registry.len(), 2);
    assert_eq!(registry.last_issued(), second.id.as_u128());
    assert_eq!(second.rx.max_capacity(), 24);
}

#[test]
fn try_subscribe_refuses_once_the_last_identifier_is_issued() {
    let mut registry = PostsSubscriptionManager::new();
    let last = registry.subscribe_with(u128::MAX);
    assert_eq!(last.id.as_u128(), u128::MAX);
    assert!(registry.try_subscribe().is_none());
    assert_eq!(registry.len(), 1);
    assert_eq!(registry.last_issued(), u128::MAX);
    assert_eq!(registry.subscribers()[0].id, last.id);
}

#[test]
fn the_identifier_before_the_last_leaves_room_for_one() {
    let mut registry = PostsSubscriptionManager::new();
    registry.subscribe_with(u128::MAX - 1);
    let granted = registry.try_subscribe().expect("one identifier is left");
    assert_eq!(granted.id.as_u128(), u128::MAX);
    assert!(registry.try_subscribe().is_none());
}

#[test]
fn unsubscribe_is_idempotent() {
    let mut registry = PostsSubscriptionManager::new();
    let id = registry.subscribe().id;
    assert_eq!(registry.unsubscribe(&id), Some(id));
    assert_eq!(registry.unsubscribe(&id), None);
    assert_eq!(registry.unsubscribe(&id), None);
    assert_eq!(registry.len(), 0);
}

#[test]
fn unsubscribing_a_stranger_changes_nothing() {
    let mut registry = PostsSubscriptionManager::new();
    let id = registry.subscribe_with(7).id;
    assert_eq!(registry.unsubscribe(&SubscriberId::from_u128(8)), None);
    assert_eq!(registry.len(), 1);
    assert_eq!(registry.subscribers()[0].id, id);
}

#[test]
fn live_count_is_subscriptions_less_removals() {
    let mut registry = PostsSubscriptionManager::new();
    let mut subscriptions = Vec::new();
    for _ in 0..5 {
        subscriptions.push(registry.subscribe());
    }
    assert_eq!(registry.len(), 5);
    assert_eq!(registry.unsubscribe(&subscriptions[1].id), Some(subscriptions[1].id));
    assert_eq!(registry.unsubscribe(&subscriptions[3].id), Some(subscriptions[3].id));
    assert_eq!(registry.len(), 3);
    for subscription in &subscriptions {
        registry.unsubscribe(&subscription.id);
    }
    assert_eq!(registry.len(), 0);
}

#[test]
fn the_snapshot_holds_every_live_subscriber_once() {
    let mut registry = PostsSubscriptionManager::new();
    let a = registry.subscribe_with(1).id;
    let b = registry.subscribe_with(2).id;
    let c = registry.subscribe_with(3).id;
    registry.unsubscribe(&b);
    let mut seen: Vec<u128> = registry.subscribers().iter().map(|s| s.id.as_u128()).collect();
    seen.sort();
    assert_eq!(seen, vec![a.as_u128(), c.as_u128()]);
}

#[test]
fn a_channel_buffers_twenty_four_events() {
    assert_eq!(CHANNEL_CAPACITY, 24);
    let mut registry = PostsSubscriptionManager::new();
    let mut subscription = registry.subscribe();
    assert_eq!(subscription.rx.max_capacity(), 24);
    let snapshot = registry.subscribers();
    assert_eq!(snapshot.len(), 1);
    assert_eq!(snapshot[0].id, subscription.id);
    assert_eq!(snapshot[0].tx.max_capacity(), 24);
    let event = Arc::new(decode("application/json", b"{}").unwrap());
    for _ in 0..24 {
        snapshot[0].tx.try_send(event.clone()).expect("room for 24 events");
    }
    assert!(matches!(snapshot[0].tx.try_send(event.clone()), Err(TrySendError::Full(_))));
    for _ in 0..24 {
        assert_eq!(subscription.rx.try_recv().unwrap().value(), event.value());
    }
    assert!(matches!(subscription.rx.try_recv(), Err(TryRecvError::Empty)));
}

#[test]
fn a_subscription_reads_what_its_subscriber_is_sent() {
    let mut registry = PostsSubscriptionManager::new();
    let mut first = registry.subscribe();
    let mut second = registry.subscribe();
    let event = Arc::new(decode("application/json", b"[true]").unwrap());
    for subscriber in registry.subscribers() {
        if subscriber.id == first.id {
            subscriber.tx.try_send(event.clone()).unwrap();
        }
    }
    assert_eq!(first.rx.try_recv().unwrap().value(), event.value());
    assert!(matches!(second.rx.try_recv(), Err(TryRecvError::Empty)));
}

#[test]
fn removal_closes_the_channel_for_the_reader() {
    let mut registry = PostsSubscriptionManager::new();
    let mut subscription = registry.subscribe();
    registry.unsubscribe(&subscription.id);
    assert!(matches!(subscription.rx.try_recv(), Err(TryRecvError::Disconnected)));
}

#[test]
fn subscriber_ids_convert_to_and_from_numbers() {
    let id = SubscriberId::from_u128(0x0190f3f06b7a7cc08f3e2f1f4d6c9a10);
    assert_eq!(id.as_u128(), 0x0190f3f06b7a7cc08f3e2f1f4d6c9a10);
    assert_eq!(id, SubscriberId::from_u128(0x0190f3f06b7a7cc08f3e2f1f4d6c9a10));
    assert_ne!(id, SubscriberId::from_u128(1));
}
