//! What holds of every dispatch round, however its sends end.

use crate::background::fanout::{RoundModel, SendOutcome};
use crate::background::registry::RegistryModel;
use vstd::prelude::*;

verus! {

/// Running a round changes neither its event nor its targets, and it never
/// holds more outcomes than it has targets once it held no more.
pub proof fn lemma_run_keeps_event_and_targets(round: RoundModel, outcomes: Seq<SendOutcome>)
    ensures
        round.run(outcomes).event == round.event,
        round.run(outcomes).targets == round.targets,
        round.outcomes.len() <= round.targets.len() ==> round.run(outcomes).outcomes.len()
            <= round.targets.len(),
    decreases outcomes.len(),
{
    if outcomes.len() > 0 {
        lemma_run_keeps_event_and_targets(round, outcomes.drop_last());
    }
}

/// As long as targets are left, a fresh round has noted exactly the outcomes
/// it was told.
pub proof fn lemma_run_of_fresh_round(
    event: serde_json::Value,
    targets: Seq<u128>,
    outcomes: Seq<SendOutcome>,
)
    requires
        outcomes.len() <= targets.len(),
    ensures
        RoundModel::begin(event, targets).run(outcomes) == (RoundModel { event, targets, outcomes }),
    decreases outcomes.len(),
{
    if outcomes.len() > 0 {
        lemma_run_of_fresh_round(event, targets, outcomes.drop_last());
        assert(outcomes.drop_last().push(outcomes.last()) =~= outcomes);
    } else {
        assert(outcomes =~= Seq::<SendOutcome>::empty());
    }
}

/// A send that fails is passed over and nothing more: the round keeps its
/// targets and its event, and the send it owes next is the one it would owe
/// had the send succeeded.
pub proof fn law_failure_is_isolated(round: RoundModel, outcome: SendOutcome)
    ensures
        round.record(outcome).targets == round.targets,
        round.record(outcome).event == round.event,
        round.record(outcome).pending() == round.record(SendOutcome::Delivered).pending(),
{
}

/// The sends of a round go to its targets in order, one each, whatever the
/// earlier sends came to; after the last one the round is finished.
pub proof fn law_every_target_is_served(
    event: serde_json::Value,
    targets: Seq<u128>,
    outcomes: Seq<SendOutcome>,
)
    requires
        outcomes.len() <= targets.len(),
    ensures
        RoundModel::begin(event, targets).run(outcomes).event == event,
        outcomes.len() < targets.len() ==> RoundModel::begin(event, targets).run(
            outcomes,
        ).pending() == Some(targets[outcomes.len() as int]),
        outcomes.len() == targets.len() ==> RoundModel::begin(event, targets).run(
            outcomes,
        ).finished(),
{
    lemma_run_of_fresh_round(event, targets, outcomes);
}

/// Whether a subscriber gets the event depends on its own send alone: where
/// that send succeeded the event was delivered, whatever became of the sends
/// before and after it.
pub proof fn law_delivery_is_independent(
    event: serde_json::Value,
    targets: Seq<u128>,
    outcomes: Seq<SendOutcome>,
    k: int,
)
    requires
        outcomes.len() == targets.len(),
        0 <= k < targets.len(),
        outcomes[k] == SendOutcome::Delivered,
    ensures
        RoundModel::begin(event, targets).run(outcomes).delivered_to(targets[k]),
{
    lemma_run_of_fresh_round(event, targets, outcomes);
    let round = RoundModel::begin(event, targets).run(outcomes);
    assert(round.outcomes[k] == SendOutcome::Delivered);
}

/// A subscriber that was removed takes no part in a round begun afterwards:
/// no send of the round is owed to it and none delivers to it.
pub proof fn law_unsubscribed_is_not_served(
    registry: RegistryModel,
    id: u128,
    event: serde_json::Value,
    targets: Seq<u128>,
    outcomes: Seq<SendOutcome>,
)
    requires
        targets.to_set() == registry.unsubscribe(id).live,
    ensures
        RoundModel::begin(event, targets).run(outcomes).pending() != Some(id),
        !RoundModel::begin(event, targets).run(outcomes).delivered_to(id),
{
    let round = RoundModel::begin(event, targets).run(outcomes);
    lemma_run_keeps_event_and_targets(RoundModel::begin(event, targets), outcomes);
    assert(!targets.to_set().contains(id));
    assert forall|k: int| 0 <= k < targets.len() implies targets[k] != id by {
        assert(targets.to_set().contains(targets[k]));
    }
}

} // verus!
