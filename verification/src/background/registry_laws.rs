//! What holds of the registry over any history of subscriptions and removals.

use crate::background::registry::RegistryModel;
use vstd::prelude::*;

verus! {

/// One call on the registry.
pub enum RegistryOp {
    /// A subscription for which the clock proposed `candidate`.
    Subscribe { candidate: u128 },
    /// The removal of `id`.
    Unsubscribe { id: u128 },
}

/// The registry after one more call.
pub open spec fn apply(registry: RegistryModel, op: RegistryOp) -> RegistryModel {
    match op {
        RegistryOp::Subscribe { candidate } => registry.subscribe(candidate),
        RegistryOp::Unsubscribe { id } => registry.unsubscribe(id),
    }
}

/// The registry after the calls `ops`, made in order on an empty registry.
pub open spec fn replay(ops: Seq<RegistryOp>) -> RegistryModel
    decreases ops.len(),
{
    if ops.len() == 0 {
        RegistryModel::empty()
    } else {
        apply(replay(ops.drop_last()), ops.last())
    }
}

/// The identifiers that the subscriptions among `ops` were given, in order.
pub open spec fn issued(ops: Seq<RegistryOp>) -> Seq<u128>
    decreases ops.len(),
{
    if ops.len() == 0 {
        Seq::empty()
    } else {
        match ops.last() {
            RegistryOp::Subscribe { candidate } => issued(ops.drop_last()).push(
                replay(ops.drop_last()).next_id(candidate),
            ),
            RegistryOp::Unsubscribe { .. } => issued(ops.drop_last()),
        }
    }
}

/// How many of `ops` are subscriptions.
pub open spec fn subscribes(ops: Seq<RegistryOp>) -> nat
    decreases ops.len(),
{
    if ops.len() == 0 {
        0
    } else if ops.last() is Subscribe {
        subscribes(ops.drop_last()) + 1
    } else {
        subscribes(ops.drop_last())
    }
}

/// How many of `ops` are removals.
pub open spec fn unsubscribes(ops: Seq<RegistryOp>) -> nat
    decreases ops.len(),
{
    if ops.len() == 0 {
        0
    } else if ops.last() is Unsubscribe {
        unsubscribes(ops.drop_last()) + 1
    } else {
        unsubscribes(ops.drop_last())
    }
}

/// Every subscription among `ops` found an identifier left to issue.
pub open spec fn never_exhausted(ops: Seq<RegistryOp>) -> bool {
    forall|i: int|
        0 <= i < ops.len() && ops[i] is Subscribe ==> (#[trigger] replay(
            ops.take(i),
        )).has_headroom()
}

/// Every removal among `ops` names a subscriber that was live at that moment:
/// one that subscribed before and was not removed since.
pub open spec fn every_removal_hits(ops: Seq<RegistryOp>) -> bool {
    forall|i: int|
        0 <= i < ops.len() ==> (ops[i] matches RegistryOp::Unsubscribe { id } ==> (#[trigger] replay(
            ops.take(i),
        )).live.contains(id))
}

proof fn lemma_prefix_of_shorter(ops: Seq<RegistryOp>, i: int)
    requires
        0 <= i < ops.len(),
    ensures
        ops.drop_last().take(i) == ops.take(i),
        ops.take(ops.len() - 1) == ops.drop_last(),
{
    assert(ops.drop_last().take(i) =~= ops.take(i));
    assert(ops.take(ops.len() - 1) =~= ops.drop_last());
}

proof fn lemma_never_exhausted_shorter(ops: Seq<RegistryOp>)
    requires
        ops.len() > 0,
        never_exhausted(ops),
    ensures
        never_exhausted(ops.drop_last()),
        ops.last() is Subscribe ==> replay(ops.drop_last()).has_headroom(),
{
    let shorter = ops.drop_last();
    assert forall|i: int| 0 <= i < shorter.len() && shorter[i] is Subscribe implies (#[trigger] replay(
        shorter.take(i),
    )).has_headroom() by {
        lemma_prefix_of_shorter(ops, i);
        assert(ops[i] is Subscribe);
        assert(replay(ops.take(i)).has_headroom());
    }
    if ops.last() is Subscribe {
        lemma_prefix_of_shorter(ops, ops.len() - 1);
        assert(ops[ops.len() - 1] is Subscribe);
        assert(replay(ops.take(ops.len() - 1)).has_headroom());
    }
}

proof fn lemma_every_removal_hits_shorter(ops: Seq<RegistryOp>)
    requires
        ops.len() > 0,
        every_removal_hits(ops),
    ensures
        every_removal_hits(ops.drop_last()),
        ops.last() matches RegistryOp::Unsubscribe { id } ==> replay(ops.drop_last()).live.contains(
            id,
        ),
{
    let shorter = ops.drop_last();
    assert forall|i: int| 0 <= i < shorter.len() implies (shorter[i] matches RegistryOp::Unsubscribe {
        id,
    } ==> (#[trigger] replay(shorter.take(i))).live.contains(id)) by {
        lemma_prefix_of_shorter(ops, i);
        assert(shorter[i] == ops[i]);
        if let RegistryOp::Unsubscribe { id } = ops[i] {
            assert(replay(ops.take(i)).live.contains(id));
        }
    }
    if let RegistryOp::Unsubscribe { id } = ops.last() {
        lemma_prefix_of_shorter(ops, ops.len() - 1);
        assert(ops[ops.len() - 1] == ops.last());
        assert(replay(ops.take(ops.len() - 1)).live.contains(id));
    }
}

/// A history that never ran out of identifiers leaves a well-formed
/// registry, and every identifier it issued is positive and at most the last
/// one issued.
pub proof fn lemma_replay_is_well_formed(ops: Seq<RegistryOp>)
    requires
        never_exhausted(ops),
    ensures
        replay(ops).wf(),
        forall|k: int|
            0 <= k < issued(ops).len() ==> 0 < #[trigger] issued(ops)[k] <= replay(
                ops,
            ).last_issued,
    decreases ops.len(),
{
    if ops.len() > 0 {
        let before = ops.drop_last();
        lemma_never_exhausted_shorter(ops);
        lemma_replay_is_well_formed(before);
        assert forall|k: int| 0 <= k < issued(ops).len() implies 0 < #[trigger] issued(ops)[k]
            <= replay(ops).last_issued by {
            if k < issued(before).len() {
                assert(issued(ops)[k] == issued(before)[k]);
            }
        }
    }
}

/// Identifiers are pairwise distinct and strictly increasing in the order
/// they were issued, whatever the clock proposed, as long as an identifier
/// was left to issue.
pub proof fn law_identifiers_strictly_increase(ops: Seq<RegistryOp>)
    requires
        never_exhausted(ops),
    ensures
        forall|i: int, j: int|
            0 <= i < j < issued(ops).len() ==> issued(ops)[i] < issued(ops)[j],
    decreases ops.len(),
{
    if ops.len() > 0 {
        let before = ops.drop_last();
        lemma_never_exhausted_shorter(ops);
        law_identifiers_strictly_increase(before);
        lemma_replay_is_well_formed(before);
        assert forall|i: int, j: int| 0 <= i < j < issued(ops).len() implies issued(ops)[i]
            < issued(ops)[j] by {
            assert(issued(ops)[i] == issued(before)[i]);
            if j < issued(before).len() {
                assert(issued(ops)[j] == issued(before)[j]);
            }
        }
    }
}

/// Removing a subscriber a second time finds it absent: the call hands back
/// nothing and leaves the registry as the first removal left it.
pub proof fn law_unsubscribe_is_idempotent(registry: RegistryModel, id: u128)
    ensures
        registry.unsubscribe(id).removed(id) is None,
        registry.unsubscribe(id).unsubscribe(id) == registry.unsubscribe(id),
{
    assert(registry.live.remove(id).remove(id) =~= registry.live.remove(id));
}

/// After any history in which every removal named a live subscriber, the
/// number of live subscribers is the number of subscriptions less the number
/// of removals.
pub proof fn law_live_count(ops: Seq<RegistryOp>)
    requires
        never_exhausted(ops),
        every_removal_hits(ops),
    ensures
        unsubscribes(ops) <= subscribes(ops),
        replay(ops).count() == subscribes(ops) - unsubscribes(ops),
    decreases ops.len(),
{
    if ops.len() > 0 {
        let before = ops.drop_last();
        lemma_never_exhausted_shorter(ops);
        lemma_every_removal_hits_shorter(ops);
        law_live_count(before);
        lemma_replay_is_well_formed(before);
        match ops.last() {
            RegistryOp::Subscribe { candidate } => {
                let id = replay(before).next_id(candidate);
                assert(!replay(before).live.contains(id));
            },
            RegistryOp::Unsubscribe { id } => {
                assert(replay(before).live.contains(id));
            },
        }
    }
}

} // verus!
