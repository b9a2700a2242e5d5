use posts_broker::background::registry::SubscriberId;
use posts_broker::middleware::cors::{origin_is_allowed, ALLOWED_PREFIX, ALLOWED_SUFFIX};
use posts_broker::routes::posts::{FeedAction, FeedEvent, FeedPhase, FeedSession};
use posts_broker::routes::users::{
    email_is_acceptable, BAD_REQUEST, EMAIL_INVALID, LISTING_LIMIT, LISTING_OFFSET,
};
use posts_broker::text::{ends_with, starts_with};

fn session() -> FeedSession {
    FeedSession::new(SubscriberId::from_u128(77))
}

#[test]
fn a_session_starts_waiting() {
    let session = session();
    assert_eq!(session.phase, FeedPhase::Waiting);
    assert_eq!(session.id, SubscriberId::from_u128(77));
}

#[test]
fn a_post_is_sent_after_its_ping() {
    let (session, action) = session().step(FeedEvent::Post);
    assert_eq!(action, FeedAction::SendPing);
    assert_eq!(session.phase, FeedPhase::Pinging);
    let (session, action) = session.step(FeedEvent::Sent);
    assert_eq!(action, FeedAction::SendPost);
    assert_eq!(session.phase, FeedPhase::Sending);
    let (session, action) = session.step(FeedEvent::Sent);
    assert_eq!(action, FeedAction::AwaitPost);
    assert_eq!(session.phase, FeedPhase::Waiting);
}

#[test]
fn a_failed_ping_costs_one_post() {
    let (session, _) = session().step(FeedEvent::Post);
    let (session, action) = session.step(FeedEvent::SendFailed);
    assert_eq!(action, FeedAction::AwaitPost);
    assert_eq!(session.phase, FeedPhase::Waiting);
    let (_, action) = session.step(FeedEvent::Post);
    assert_eq!(action, FeedAction::SendPing);
}

#[test]
fn a_post_that_cannot_be_sent_ends_the_session() {
    let (session, _) = session().step(FeedEvent::Post);
    let (session, _) = session.step(FeedEvent::Sent);
    let (session, action) = session.step(FeedEvent::SendFailed);
    assert_eq!(action, FeedAction::Unsubscribe(SubscriberId::from_u128(77)));
    assert_eq!(session.phase, FeedPhase::Closed);
    for event in [FeedEvent::Post, FeedEvent::Drained, FeedEvent::Sent, FeedEvent::SendFailed] {
        let (after, action) = session.step(event);
        assert_eq!(action, FeedAction::Finish);
        assert_eq!(after, session);
    }
}

#[test]
fn a_drained_subscription_ends_the_session_without_removal() {
    let (session, action) = session().step(FeedEvent::Drained);
    assert_eq!(action, FeedAction::Finish);
    assert_eq!(session.phase, FeedPhase::Closed);
}

#[test]
fn a_session_ignores_what_it_does_not_wait_for() {
    let (session, action) = session().step(FeedEvent::Sent);
    assert_eq!(action, FeedAction::Ignore);
    assert_eq!(session.phase, FeedPhase::Waiting);
    let (session, action) = session.step(FeedEvent::SendFailed);
    assert_eq!(action, FeedAction::Ignore);
    let (session, _) = session.step(FeedEvent::Post);
    let (session, action) = session.step(FeedEvent::Post);
    assert_eq!(action, FeedAction::Ignore);
    assert_eq!(session.phase, FeedPhase::Pinging);
    let (session, action) = session.step(FeedEvent::Drained);
    assert_eq!(action, FeedAction::Ignore);
    assert_eq!(session.phase, FeedPhase::Pinging);
}

#[test]
fn any_address_but_the_empty_one_is_acceptable() {
    assert!(!email_is_acceptable(""));
    assert!(email_is_acceptable("a"));
    assert!(email_is_acceptable(" "));
    assert!(email_is_acceptable("user@example.org"));
    assert!(email_is_acceptable("\u{e9}"));
}

#[test]
fn the_user_routes_have_their_constants() {
    assert_eq!(LISTING_OFFSET, 0);
    assert_eq!(LISTING_LIMIT, 200);
    assert_eq!(BAD_REQUEST, 400);
    assert_eq!(EMAIL_INVALID, "email invalid");
}

#[test]
fn origins_are_allowed_by_suffix_or_prefix() {
    assert_eq!(ALLOWED_SUFFIX, ".dns.podman");
    assert_eq!(ALLOWED_PREFIX, "https://localhost:3333");
    assert!(origin_is_allowed(b"http://app.dns.podman"));
    assert!(origin_is_allowed(b".dns.podman"));
    assert!(origin_is_allowed(b"https://localhost:3333"));
    assert!(origin_is_allowed(b"https://localhost:33333/path"));
    assert!(!origin_is_allowed(b""));
    assert!(!origin_is_allowed(b"dns.podman"));
    assert!(!origin_is_allowed(b"http://app.dns.podman:8080"));
    assert!(!origin_is_allowed(b"http://localhost:3333"));
    assert!(!origin_is_allowed(b"https://localhost:333"));
    assert!(!origin_is_allowed(b"https://example.org"));
}

#[test]
fn prefixes_and_suffixes_are_found() {
    assert!(starts_with(b"abc", b""));
    assert!(starts_with(b"abc", b"ab"));
    assert!(starts_with(b"abc", b"abc"));
    assert!(!starts_with(b"abc", b"abcd"));
    assert!(!starts_with(b"abc", b"bc"));
    assert!(ends_with(b"abc", b""));
    assert!(ends_with(b"abc", b"bc"));
    assert!(ends_with(b"abc", b"abc"));
    assert!(!ends_with(b"abc", b"zabc"));
    assert!(!ends_with(b"abc", b"ab"));
}
