//! What holds of the consumer in every state and after every history.

use crate::background::decoder::{decoded, RawModel, Rejection, JSON_CONTENT_TYPE};
use crate::background::posts_broker::{
    ActionModel, BrokerModel, ConsumerState, EventModel, Phase, MAX_IN_FLIGHT,
};
use vstd::prelude::*;

verus! {

/// The consumer after the events `events`, reported in order to a consumer
/// that had not been started.
pub open spec fn replay(events: Seq<EventModel>) -> BrokerModel
    decreases events.len(),
{
    if events.len() == 0 {
        BrokerModel::initial()
    } else {
        replay(events.drop_last()).step(events.last()).0
    }
}

/// The place of a state on the way from idle to stopped.
pub open spec fn rank(state: ConsumerState) -> nat {
    match state {
        ConsumerState::Idle => 0,
        ConsumerState::Connecting => 1,
        ConsumerState::Declaring => 2,
        ConsumerState::Consuming => 3,
        ConsumerState::Terminated => 4,
        ConsumerState::Faulted => 4,
    }
}

/// No event takes the consumer above its number of dispatch units.
pub proof fn lemma_step_keeps_bound(broker: BrokerModel, event: EventModel)
    requires
        broker.wf(),
    ensures
        broker.step(event).0.wf(),
{
}

/// After any history at most [`MAX_IN_FLIGHT`] dispatch units are running.
pub proof fn law_units_are_bounded(events: Seq<EventModel>)
    ensures
        replay(events).in_flight <= MAX_IN_FLIGHT,
    decreases events.len(),
{
    if events.len() > 0 {
        law_units_are_bounded(events.drop_last());
        lemma_step_keeps_bound(replay(events.drop_last()), events.last());
    }
}

/// A consumer that has stopped stays as it is, and answers every event by
/// saying again how it stopped.
pub proof fn law_stopped_is_final(broker: BrokerModel, event: EventModel)
    requires
        broker.phase.stopped(),
    ensures
        broker.step(event).0 == broker,
        broker.step(event).1 == (ActionModel::Stop { faulted: broker.phase == Phase::Faulted }),
{
}

/// The consumer never goes back: idle, connecting, declaring, consuming,
/// stopped, in that order.
pub proof fn law_states_only_advance(broker: BrokerModel, event: EventModel)
    ensures
        rank(broker.phase.state()) <= rank(broker.step(event).0.phase.state()),
{
}

/// A failure in any step of setup is fatal: the consumer is faulted and
/// leaves its loop.
pub proof fn law_setup_failure_is_fatal(broker: BrokerModel)
    requires
        broker.phase.in_setup(),
    ensures
        broker.step(EventModel::Failed).0.phase == Phase::Faulted,
        broker.step(EventModel::Failed).1 == (ActionModel::Stop { faulted: true }),
{
}

/// Shutdown ends a running consumer in good order, whatever it was doing.
pub proof fn law_shutdown_terminates(broker: BrokerModel)
    requires
        !broker.phase.stopped(),
    ensures
        broker.step(EventModel::Shutdown).0.phase == Phase::Terminated,
        broker.step(EventModel::Shutdown).1 == (ActionModel::Stop { faulted: false }),
{
}

/// A delivery that is taken is acknowledged, whatever it holds. It is
/// dispatched exactly if it decodes, and then as the event it decodes to;
/// otherwise it is dropped for the reason decoding gives, no dispatch unit
/// is started, and so no subscriber is sent anything.
pub proof fn law_every_delivery_is_acknowledged(broker: BrokerModel, raw: RawModel)
    requires
        broker.accepting(),
    ensures
        match decoded(raw.content_type, raw.body) {
            Ok(event) => broker.step(EventModel::Delivery(raw)).1 == (ActionModel::AckAndDispatch {
                delivery_tag: raw.delivery_tag,
                event,
            }) && broker.step(EventModel::Delivery(raw)).0.in_flight == broker.in_flight + 1,
            Err(rejection) => broker.step(EventModel::Delivery(raw)).1
                == (ActionModel::AckAndDiscard { delivery_tag: raw.delivery_tag, rejection })
                && broker.step(EventModel::Delivery(raw)).0.in_flight == broker.in_flight,
        },
{
}

/// A delivery with a foreign content type is acknowledged and dropped
/// without a dispatch.
pub proof fn law_foreign_content_type_is_dropped(broker: BrokerModel, raw: RawModel)
    requires
        broker.accepting(),
        raw.content_type != JSON_CONTENT_TYPE@,
    ensures
        broker.step(EventModel::Delivery(raw)).1 == (ActionModel::AckAndDiscard {
            delivery_tag: raw.delivery_tag,
            rejection: Rejection::ContentType,
        }),
        broker.step(EventModel::Delivery(raw)).0.in_flight == broker.in_flight,
{
}

/// When the consumer asks to wait without taking deliveries, a dispatch
/// unit is running whose end it can wait for.
pub proof fn law_poll_has_something_to_wait_for(broker: BrokerModel, event: EventModel)
    requires
        broker.step(event).1 == (ActionModel::Poll { deliveries: false }),
    ensures
        broker.step(event).0.in_flight > 0,
{
}

/// While it polls, the consumer takes a delivery exactly if the queue is
/// open and a dispatch unit is free; it is never asked to take one otherwise.
pub proof fn law_poll_asks_only_for_what_is_taken(broker: BrokerModel, event: EventModel)
    requires
        broker.step(event).1 is Poll,
    ensures
        broker.step(event).1 == (ActionModel::Poll {
            deliveries: broker.step(event).0.accepting(),
        }),
{
}

/// Whether `event` may be what a caller reports after it was asked for
/// `action` while `in_flight` dispatch units were running.
pub open spec fn answers(action: ActionModel, in_flight: nat, event: EventModel) -> bool {
    match action {
        ActionModel::AcquireConnection
        | ActionModel::OpenChannel
        | ActionModel::DeclareQueue
        | ActionModel::StartConsumer
        | ActionModel::AckAndDispatch { .. }
        | ActionModel::AckAndDiscard { .. } => event is Done || event is Failed
            || event is Shutdown,
        ActionModel::Poll { deliveries } => match event {
            EventModel::Delivery(_) | EventModel::DeliveryError | EventModel::StreamEnded =>
                deliveries,
            EventModel::DispatchFinished => in_flight > 0,
            EventModel::Shutdown => true,
            _ => false,
        },
        ActionModel::Stop { .. } => true,
        ActionModel::Ignore => false,
    }
}

/// A consumer that is started is asked to take a connection.
pub proof fn law_start_asks_for_a_connection()
    ensures
        BrokerModel::initial().step(EventModel::Start).1 == ActionModel::AcquireConnection,
{
}

/// A caller that does what it is asked and reports what came of it is
/// never ignored: every answer to an action is an event the consumer waits
/// for.
pub proof fn law_faithful_caller_is_never_ignored(
    broker: BrokerModel,
    event: EventModel,
    answer: EventModel,
)
    requires
        answers(broker.step(event).1, broker.step(event).0.in_flight, answer),
    ensures
        !(broker.step(event).0.step(answer).1 is Ignore),
{
}

} // verus!
