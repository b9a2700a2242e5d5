//! The queue consumer: what it does next, given what just happened.
//!
//! The consumer connects, opens a channel, declares the queue, starts
//! consuming, and then settles one delivery after the other: each is
//! acknowledged whatever it holds, and handed on for dispatch if it decodes.
//! At most [`MAX_IN_FLIGHT`] dispatch units run at a time. The caller
//! performs every action and reports back with an event; all decisions are
//! taken here.

use crate::background::decoder::{decoded, DecodedEvent, RawDelivery, RawModel, Rejection};
use std::sync::Arc;
use vstd::prelude::*;

verus! {

/// The queue that deliveries are consumed from.
pub const QUEUE_NAME: &'static str = "posts";

/// The tag the consumer registers under.
pub const CONSUMER_TAG: &'static str = "posts-consumer";

/// How many dispatch units may run at the same time.
pub const MAX_IN_FLIGHT: usize = 5;

/// Settings of the broker.
#[derive(Debug, Clone)]
pub struct PostsBrokerConfig {
    n_workers: u32,
}

impl PostsBrokerConfig {
    /// The number of workers that is configured.
    pub closed spec fn spec_n_workers(&self) -> u32 {
        self.n_workers
    }

    /// The number of workers that is configured.
    #[verifier::when_used_as_spec(spec_n_workers)]
    pub fn n_workers(&self) -> (n: u32)
        ensures
            n == self.spec_n_workers(),
    {
        self.n_workers
    }
}

impl Default for PostsBrokerConfig {
    /// One worker.
    fn default() -> (config: Self)
        ensures
            config.n_workers() == 1,
    {
        PostsBrokerConfig { n_workers: 1 }
    }
}

/// Where the consumer stands, as others see it.
#[derive(Debug, Clone, Copy, PartialEq, Eq, Structural)]
pub enum ConsumerState {
    Idle,
    Connecting,
    Declaring,
    Consuming,
    Terminated,
    Faulted,
}

/// Where the consumer stands, step by step.
#[derive(Debug, Clone, Copy, PartialEq, Eq, Structural)]
pub enum Phase {
    /// Not started.
    Idle,
    /// Waiting for a connection from the pool.
    AcquiringConnection,
    /// Waiting for a channel on the connection.
    OpeningChannel,
    /// Waiting for the queue to be declared.
    DeclaringQueue,
    /// Waiting for the consumer to be registered on the queue.
    StartingConsumer,
    /// Waiting for a delivery, or for a dispatch unit to finish.
    Polling,
    /// Waiting for a delivery to be acknowledged and handed on or dropped.
    Settling,
    /// Stopped in good order.
    Terminated,
    /// Stopped by a failure during setup.
    Faulted,
}

impl Phase {
    /// The state that a phase belongs to.
    pub open spec fn spec_state(self) -> ConsumerState {
        match self {
            Phase::Idle => ConsumerState::Idle,
            Phase::AcquiringConnection | Phase::OpeningChannel => ConsumerState::Connecting,
            Phase::DeclaringQueue | Phase::StartingConsumer => ConsumerState::Declaring,
            Phase::Polling | Phase::Settling => ConsumerState::Consuming,
            Phase::Terminated => ConsumerState::Terminated,
            Phase::Faulted => ConsumerState::Faulted,
        }
    }

    /// The state that a phase belongs to.
    #[verifier::when_used_as_spec(spec_state)]
    pub fn state(self) -> (state: ConsumerState)
        ensures
            state == self.spec_state(),
    {
        match self {
            Phase::Idle => ConsumerState::Idle,
            Phase::AcquiringConnection | Phase::OpeningChannel => ConsumerState::Connecting,
            Phase::DeclaringQueue | Phase::StartingConsumer => ConsumerState::Declaring,
            Phase::Polling | Phase::Settling => ConsumerState::Consuming,
            Phase::Terminated => ConsumerState::Terminated,
            Phase::Faulted => ConsumerState::Faulted,
        }
    }

    /// Whether the consumer has stopped for good.
    pub open spec fn stopped(self) -> bool {
        self == Phase::Terminated || self == Phase::Faulted
    }

    /// Whether the phase is one of the four steps of setup.
    pub open spec fn in_setup(self) -> bool {
        self == Phase::AcquiringConnection || self == Phase::OpeningChannel || self
            == Phase::DeclaringQueue || self == Phase::StartingConsumer
    }
}

/// What the caller reports.
#[derive(Debug, Clone)]
pub enum BrokerEvent {
    /// The consumer is asked to start.
    Start,
    /// The action that was asked for has been carried out.
    Done,
    /// The action that was asked for has failed.
    Failed,
    /// The queue handed over a delivery.
    Delivery(RawDelivery),
    /// The queue reported an error in place of a delivery.
    DeliveryError,
    /// A dispatch unit has finished.
    DispatchFinished,
    /// The queue will hand over no more deliveries.
    StreamEnded,
    /// The process is shutting down.
    Shutdown,
}

/// An event as a value.
pub enum EventModel {
    Start,
    Done,
    Failed,
    Delivery(RawModel),
    DeliveryError,
    DispatchFinished,
    StreamEnded,
    Shutdown,
}

impl View for BrokerEvent {
    type V = EventModel;

    open spec fn view(&self) -> EventModel {
        match self {
            BrokerEvent::Start => EventModel::Start,
            BrokerEvent::Done => EventModel::Done,
            BrokerEvent::Failed => EventModel::Failed,
            BrokerEvent::Delivery(raw) => EventModel::Delivery(raw@),
            BrokerEvent::DeliveryError => EventModel::DeliveryError,
            BrokerEvent::DispatchFinished => EventModel::DispatchFinished,
            BrokerEvent::StreamEnded => EventModel::StreamEnded,
            BrokerEvent::Shutdown => EventModel::Shutdown,
        }
    }
}

/// What the caller is asked to do.
pub enum BrokerAction {
    /// Take a connection to the queue server from the pool.
    AcquireConnection,
    /// Open a channel on the connection.
    OpenChannel,
    /// Declare the queue [`QUEUE_NAME`].
    DeclareQueue,
    /// Start consuming from [`QUEUE_NAME`] as [`CONSUMER_TAG`], with
    /// acknowledgment by hand.
    StartConsumer,
    /// Wait for a dispatch unit to finish or for shutdown, and, where
    /// `deliveries` is set, for the next delivery.
    Poll { deliveries: bool },
    /// Acknowledge the delivery, then start a dispatch unit for the event.
    AckAndDispatch { delivery_tag: u64, event: Arc<DecodedEvent> },
    /// Acknowledge the delivery, then drop it and report why.
    AckAndDiscard { delivery_tag: u64, rejection: Rejection },
    /// Leave the run loop: with the failure if `faulted`, in good order if not.
    Stop { faulted: bool },
    /// The event did not fit the state; there is nothing to do.
    Ignore,
}

/// An action as a value.
pub enum ActionModel {
    AcquireConnection,
    OpenChannel,
    DeclareQueue,
    StartConsumer,
    Poll { deliveries: bool },
    AckAndDispatch { delivery_tag: u64, event: serde_json::Value },
    AckAndDiscard { delivery_tag: u64, rejection: Rejection },
    Stop { faulted: bool },
    Ignore,
}

impl View for BrokerAction {
    type V = ActionModel;

    open spec fn view(&self) -> ActionModel {
        match self {
            BrokerAction::AcquireConnection => ActionModel::AcquireConnection,
            BrokerAction::OpenChannel => ActionModel::OpenChannel,
            BrokerAction::DeclareQueue => ActionModel::DeclareQueue,
            BrokerAction::StartConsumer => ActionModel::StartConsumer,
            BrokerAction::Poll { deliveries } => ActionModel::Poll { deliveries: *deliveries },
            BrokerAction::AckAndDispatch { delivery_tag, event } => ActionModel::AckAndDispatch {
                delivery_tag: *delivery_tag,
                event: event@,
            },
            BrokerAction::AckAndDiscard { delivery_tag, rejection } => ActionModel::AckAndDiscard {
                delivery_tag: *delivery_tag,
                rejection: *rejection,
            },
            BrokerAction::Stop { faulted } => ActionModel::Stop { faulted: *faulted },
            BrokerAction::Ignore => ActionModel::Ignore,
        }
    }
}

/// The consumer as a value: its phase, how many dispatch units are running,
/// and whether the queue may still hand over deliveries.
pub struct BrokerModel {
    pub phase: Phase,
    pub in_flight: nat,
    pub stream_open: bool,
}

impl BrokerModel {
    /// The consumer before it was started.
    pub open spec fn initial() -> BrokerModel {
        BrokerModel { phase: Phase::Idle, in_flight: 0, stream_open: true }
    }

    /// No more dispatch units run than are allowed.
    pub open spec fn wf(self) -> bool {
        self.in_flight <= MAX_IN_FLIGHT
    }

    /// Whether a delivery would be taken now.
    pub open spec fn accepting(self) -> bool {
        self.phase == Phase::Polling && self.stream_open && self.in_flight < MAX_IN_FLIGHT
    }

    /// The consumer stopped, with the action that says so.
    pub open spec fn stop(self, faulted: bool) -> (BrokerModel, ActionModel) {
        (
            BrokerModel {
                phase: if faulted {
                    Phase::Faulted
                } else {
                    Phase::Terminated
                },
                ..self
            },
            ActionModel::Stop { faulted },
        )
    }

    /// The consumer moved on to the next step of setup.
    pub open spec fn advance(self, phase: Phase, action: ActionModel) -> (BrokerModel, ActionModel) {
        (BrokerModel { phase, ..self }, action)
    }

    /// Back to waiting: for deliveries while the queue is open and a unit is
    /// free, for running units otherwise; and once the queue is closed and no
    /// unit runs, the consumer terminates.
    pub open spec fn resume(self) -> (BrokerModel, ActionModel) {
        if !self.stream_open && self.in_flight == 0 {
            self.stop(false)
        } else {
            (
                BrokerModel { phase: Phase::Polling, ..self },
                ActionModel::Poll {
                    deliveries: self.stream_open && self.in_flight < MAX_IN_FLIGHT,
                },
            )
        }
    }

    /// A delivery is taken: it is acknowledged whatever it holds, and
    /// dispatched if it decodes.
    pub open spec fn settle(self, raw: RawModel) -> (BrokerModel, ActionModel) {
        match decoded(raw.content_type, raw.body) {
            Ok(event) => (
                BrokerModel { phase: Phase::Settling, in_flight: self.in_flight + 1, ..self },
                ActionModel::AckAndDispatch { delivery_tag: raw.delivery_tag, event },
            ),
            Err(rejection) => (
                BrokerModel { phase: Phase::Settling, ..self },
                ActionModel::AckAndDiscard { delivery_tag: raw.delivery_tag, rejection },
            ),
        }
    }

    /// The consumer after `event`, and what it asks for.
    pub open spec fn step(self, event: EventModel) -> (BrokerModel, ActionModel) {
        if self.phase == Phase::Terminated {
            (self, ActionModel::Stop { faulted: false })
        } else if self.phase == Phase::Faulted {
            (self, ActionModel::Stop { faulted: true })
        } else if event is Shutdown {
            self.stop(false)
        } else {
            match (self.phase, event) {
                (Phase::Idle, EventModel::Start) => self.advance(
                    Phase::AcquiringConnection,
                    ActionModel::AcquireConnection,
                ),
                (Phase::AcquiringConnection, EventModel::Done) => self.advance(
                    Phase::OpeningChannel,
                    ActionModel::OpenChannel,
                ),
                (Phase::OpeningChannel, EventModel::Done) => self.advance(
                    Phase::DeclaringQueue,
                    ActionModel::DeclareQueue,
                ),
                (Phase::DeclaringQueue, EventModel::Done) => self.advance(
                    Phase::StartingConsumer,
                    ActionModel::StartConsumer,
                ),
                (Phase::StartingConsumer, EventModel::Done) => self.resume(),
                (Phase::AcquiringConnection, EventModel::Failed)
                | (Phase::OpeningChannel, EventModel::Failed)
                | (Phase::DeclaringQueue, EventModel::Failed)
                | (Phase::StartingConsumer, EventModel::Failed) => self.stop(true),
                (Phase::Polling, EventModel::Delivery(raw)) => if self.accepting() {
                    self.settle(raw)
                } else {
                    (self, ActionModel::Ignore)
                },
                (Phase::Polling, EventModel::DeliveryError) => self.resume(),
                (Phase::Polling, EventModel::DispatchFinished) => if self.in_flight > 0 {
                    (BrokerModel { in_flight: (self.in_flight - 1) as nat, ..self }).resume()
                } else {
                    (self, ActionModel::Ignore)
                },
                (Phase::Polling, EventModel::StreamEnded) => (BrokerModel {
                    stream_open: false,
                    ..self
                }).resume(),
                (Phase::Settling, EventModel::Done) | (Phase::Settling, EventModel::Failed) =>
                    self.resume(),
                _ => (self, ActionModel::Ignore),
            }
        }
    }
}

/// The queue consumer.
pub struct PostsBroker {
    phase: Phase,
    in_flight: usize,
    stream_open: bool,
}

impl View for PostsBroker {
    type V = BrokerModel;

    closed spec fn view(&self) -> BrokerModel {
        BrokerModel {
            phase: self.phase,
            in_flight: self.in_flight as nat,
            stream_open: self.stream_open,
        }
    }
}

impl PostsBroker {
    /// A consumer that has not been started.
    pub fn new() -> (broker: Self)
        ensures
            broker@ == BrokerModel::initial(),
    {
        PostsBroker { phase: Phase::Idle, in_flight: 0, stream_open: true }
    }

    /// The phase the consumer is in.
    pub fn phase(&self) -> (phase: Phase)
        ensures
            phase == self@.phase,
    {
        self.phase
    }

    /// The state the consumer is in.
    pub fn state(&self) -> (state: ConsumerState)
        ensures
            state == self@.phase.state(),
    {
        self.phase.state()
    }

    /// How many dispatch units are running.
    pub fn in_flight(&self) -> (units: usize)
        ensures
            units == self@.in_flight,
    {
        self.in_flight
    }

    fn stop(self, faulted: bool) -> (next: (PostsBroker, BrokerAction))
        ensures
            (next.0@, next.1@) == self@.stop(faulted),
    {
        let phase = if faulted {
            Phase::Faulted
        } else {
            Phase::Terminated
        };
        (
            PostsBroker { phase, in_flight: self.in_flight, stream_open: self.stream_open },
            BrokerAction::Stop { faulted },
        )
    }

    fn advance(self, phase: Phase, action: BrokerAction) -> (next: (PostsBroker, BrokerAction))
        ensures
            (next.0@, next.1@) == self@.advance(phase, action@),
    {
        (PostsBroker { phase, in_flight: self.in_flight, stream_open: self.stream_open }, action)
    }

    fn resume(self) -> (next: (PostsBroker, BrokerAction))
        ensures
            (next.0@, next.1@) == self@.resume(),
    {
        if !self.stream_open && self.in_flight == 0 {
            self.stop(false)
        } else {
            let deliveries = self.stream_open && self.in_flight < MAX_IN_FLIGHT;
            (
                PostsBroker {
                    phase: Phase::Polling,
                    in_flight: self.in_flight,
                    stream_open: self.stream_open,
                },
                BrokerAction::Poll { deliveries },
            )
        }
    }

    fn settle(self, raw: &RawDelivery) -> (next: (PostsBroker, BrokerAction))
        requires
            self@.in_flight < MAX_IN_FLIGHT,
        ensures
            (next.0@, next.1@) == self@.settle(raw@),
    {
        match raw.decode() {
            Ok(event) => (
                PostsBroker {
                    phase: Phase::Settling,
                    in_flight: self.in_flight + 1,
                    stream_open: self.stream_open,
                },
                BrokerAction::AckAndDispatch {
                    delivery_tag: raw.delivery_tag,
                    event: Arc::new(event),
                },
            ),
            Err(rejection) => (
                PostsBroker {
                    phase: Phase::Settling,
                    in_flight: self.in_flight,
                    stream_open: self.stream_open,
                },
                BrokerAction::AckAndDiscard { delivery_tag: raw.delivery_tag, rejection },
            ),
        }
    }

    /// Takes in what happened and answers with what to do next.
    pub fn step(self, event: BrokerEvent) -> (next: (PostsBroker, BrokerAction))
        ensures
            (next.0@, next.1@) == self@.step(event@),
    {
        match self.phase {
            Phase::Terminated => (self, BrokerAction::Stop { faulted: false }),
            Phase::Faulted => (self, BrokerAction::Stop { faulted: true }),
            Phase::Idle => match event {
                BrokerEvent::Shutdown => self.stop(false),
                BrokerEvent::Start => self.advance(
                    Phase::AcquiringConnection,
                    BrokerAction::AcquireConnection,
                ),
                _ => (self, BrokerAction::Ignore),
            },
            Phase::AcquiringConnection => match event {
                BrokerEvent::Shutdown => self.stop(false),
                BrokerEvent::Done => self.advance(Phase::OpeningChannel, BrokerAction::OpenChannel),
                BrokerEvent::Failed => self.stop(true),
                _ => (self, BrokerAction::Ignore),
            },
            Phase::OpeningChannel => match event {
                BrokerEvent::Shutdown => self.stop(false),
                BrokerEvent::Done => self.advance(Phase::DeclaringQueue, BrokerAction::DeclareQueue),
                BrokerEvent::Failed => self.stop(true),
                _ => (self, BrokerAction::Ignore),
            },
            Phase::DeclaringQueue => match event {
                BrokerEvent::Shutdown => self.stop(false),
                BrokerEvent::Done => self.advance(
                    Phase::StartingConsumer,
                    BrokerAction::StartConsumer,
                ),
                BrokerEvent::Failed => self.stop(true),
                _ => (self, BrokerAction::Ignore),
            },
            Phase::StartingConsumer => match event {
                BrokerEvent::Shutdown => self.stop(false),
                BrokerEvent::Done => self.resume(),
                BrokerEvent::Failed => self.stop(true),
                _ => (self, BrokerAction::Ignore),
            },
            Phase::Polling => match event {
                BrokerEvent::Shutdown => self.stop(false),
                BrokerEvent::Delivery(raw) => {
                    if self.stream_open && self.in_flight < MAX_IN_FLIGHT {
                        self.settle(&raw)
                    } else {
                        (self, BrokerAction::Ignore)
                    }
                },
                BrokerEvent::DeliveryError => self.resume(),
                BrokerEvent::DispatchFinished => {
                    if self.in_flight > 0 {
                        let freed = PostsBroker {
                            phase: self.phase,
                            in_flight: self.in_flight - 1,
                            stream_open: self.stream_open,
                        };
                        freed.resume()
                    } else {
                        (self, BrokerAction::Ignore)
                    }
                },
                BrokerEvent::StreamEnded => {
                    let closed = PostsBroker {
                        phase: self.phase,
                        in_flight: self.in_flight,
                        stream_open: false,
                    };
                    closed.resume()
                },
                _ => (self, BrokerAction::Ignore),
            },
            Phase::Settling => match event {
                BrokerEvent::Shutdown => self.stop(false),
                BrokerEvent::Done | BrokerEvent::Failed => self.resume(),
                _ => (self, BrokerAction::Ignore),
            },
        }
    }
}

} // verus!
