//! One live connection that posts are pushed to.
//!
//! A session subscribes once and then, for every event its subscription
//! yields, sends a ping and after it the rendered post. A ping that fails
//! costs that one post; a post that cannot be sent means the connection is
//! dead, and the session unsubscribes and ends. When the subscription runs
//! dry the session ends without more ado. The caller renders and sends; the
//! session says what comes next.

use crate::background::registry::SubscriberId;
use vstd::prelude::*;

verus! {

/// Where a session stands.
#[derive(Debug, Clone, Copy, PartialEq, Eq, Structural)]
pub enum FeedPhase {
    /// Waiting for the next event.
    Waiting,
    /// A ping is on its way; the post follows if it gets through.
    Pinging,
    /// The post is on its way.
    Sending,
    /// The session is over.
    Closed,
}

/// What the caller reports.
#[derive(Debug, Clone, Copy, PartialEq, Eq, Structural)]
pub enum FeedEvent {
    /// The subscription yielded an event.
    Post,
    /// The subscription will yield nothing more.
    Drained,
    /// The message that was asked for has been sent.
    Sent,
    /// The message that was asked for could not be sent.
    SendFailed,
}

/// What the caller is asked to do.
#[derive(Debug, Clone, Copy, PartialEq, Eq, Structural)]
pub enum FeedAction {
    /// Wait for the next event of the subscription.
    AwaitPost,
    /// Send a ping.
    SendPing,
    /// Send the post that was received last, rendered.
    SendPost,
    /// Remove the subscriber from the registry and end the session.
    Unsubscribe(SubscriberId),
    /// End the session.
    Finish,
    /// The event did not fit the state; there is nothing to do.
    Ignore,
}

/// One live connection, from its subscription to its end.
#[derive(Debug, Clone, Copy, PartialEq, Eq, Structural)]
pub struct FeedSession {
    pub id: SubscriberId,
    pub phase: FeedPhase,
}

impl FeedSession {
    /// The session after `event`, and what it asks for.
    pub open spec fn spec_step(self, event: FeedEvent) -> (FeedSession, FeedAction) {
        match (self.phase, event) {
            (FeedPhase::Closed, _) => (self, FeedAction::Finish),
            (FeedPhase::Waiting, FeedEvent::Post) => (
                FeedSession { phase: FeedPhase::Pinging, ..self },
                FeedAction::SendPing,
            ),
            (FeedPhase::Waiting, FeedEvent::Drained) => (
                FeedSession { phase: FeedPhase::Closed, ..self },
                FeedAction::Finish,
            ),
            (FeedPhase::Pinging, FeedEvent::Sent) => (
                FeedSession { phase: FeedPhase::Sending, ..self },
                FeedAction::SendPost,
            ),
            (FeedPhase::Pinging, FeedEvent::SendFailed) => (
                FeedSession { phase: FeedPhase::Waiting, ..self },
                FeedAction::AwaitPost,
            ),
            (FeedPhase::Sending, FeedEvent::Sent) => (
                FeedSession { phase: FeedPhase::Waiting, ..self },
                FeedAction::AwaitPost,
            ),
            (FeedPhase::Sending, FeedEvent::SendFailed) => (
                FeedSession { phase: FeedPhase::Closed, ..self },
                FeedAction::Unsubscribe(self.id),
            ),
            _ => (self, FeedAction::Ignore),
        }
    }

    /// A session for the subscriber `id`, waiting for its first event.
    pub open spec fn spec_new(id: SubscriberId) -> FeedSession {
        FeedSession { id, phase: FeedPhase::Waiting }
    }

    /// A session for the subscriber `id`, waiting for its first event.
    #[verifier::when_used_as_spec(spec_new)]
    pub fn new(id: SubscriberId) -> (session: Self)
        ensures
            session == FeedSession::spec_new(id),
    {
        FeedSession { id, phase: FeedPhase::Waiting }
    }

    /// Takes in what happened and answers with what to do next.
    #[verifier::when_used_as_spec(spec_step)]
    pub fn step(self, event: FeedEvent) -> (next: (FeedSession, FeedAction))
        ensures
            next == self.spec_step(event),
    {
        match self.phase {
            FeedPhase::Closed => (self, FeedAction::Finish),
            FeedPhase::Waiting => match event {
                FeedEvent::Post => (
                    FeedSession { id: self.id, phase: FeedPhase::Pinging },
                    FeedAction::SendPing,
                ),
                FeedEvent::Drained => (
                    FeedSession { id: self.id, phase: FeedPhase::Closed },
                    FeedAction::Finish,
                ),
                _ => (self, FeedAction::Ignore),
            },
            FeedPhase::Pinging => match event {
                FeedEvent::Sent => (
                    FeedSession { id: self.id, phase: FeedPhase::Sending },
                    FeedAction::SendPost,
                ),
                FeedEvent::SendFailed => (
                    FeedSession { id: self.id, phase: FeedPhase::Waiting },
                    FeedAction::AwaitPost,
                ),
                _ => (self, FeedAction::Ignore),
            },
            FeedPhase::Sending => match event {
                FeedEvent::Sent => (
                    FeedSession { id: self.id, phase: FeedPhase::Waiting },
                    FeedAction::AwaitPost,
                ),
                FeedEvent::SendFailed => (
                    FeedSession { id: self.id, phase: FeedPhase::Closed },
                    FeedAction::Unsubscribe(self.id),
                ),
                _ => (self, FeedAction::Ignore),
            },
        }
    }
}

/// A session removes its own subscriber and no other, it does so only when
/// a post could not be sent, and it is over from then on.
pub proof fn law_session_unsubscribes_itself_once(session: FeedSession, event: FeedEvent)
    ensures
        session.step(event).0.id == session.id,
        session.step(event).1 is Unsubscribe ==> session.step(event).1 == FeedAction::Unsubscribe(
            session.id,
        ) && session.phase == FeedPhase::Sending && event == FeedEvent::SendFailed
            && session.step(event).0.phase == FeedPhase::Closed,
        session.phase == FeedPhase::Closed ==> session.step(event) == (session, FeedAction::Finish),
{
}

/// Whether `event` may be what a caller reports after it was asked for `action`.
pub open spec fn answers(action: FeedAction, event: FeedEvent) -> bool {
    match action {
        FeedAction::AwaitPost => event == FeedEvent::Post || event == FeedEvent::Drained,
        FeedAction::SendPing | FeedAction::SendPost => event == FeedEvent::Sent || event
            == FeedEvent::SendFailed,
        FeedAction::Unsubscribe(_) | FeedAction::Finish => true,
        FeedAction::Ignore => false,
    }
}

/// A caller that does what it is asked and reports what came of it is never
/// ignored, from the first wait for a post on.
pub proof fn law_faithful_caller_is_never_ignored(
    session: FeedSession,
    event: FeedEvent,
    answer: FeedEvent,
)
    requires
        answers(session.step(event).1, answer),
    ensures
        !(session.step(event).0.step(answer).1 is Ignore),
        answers(FeedAction::AwaitPost, answer) ==> !(FeedSession::new(session.id).step(
            answer,
        ).1 is Ignore),
{
}

} // verus!
