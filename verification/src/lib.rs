//! Live-update fan-out for "post created" events.
//!
//! Deliveries pulled from a message queue are decoded into shared, immutable
//! events and handed to every registered subscriber. The crate holds the
//! decisions of that pipeline (what is accepted, who is registered, who is
//! sent to, what the consumer does next); the caller performs the waits.

pub mod background;
pub mod config;
pub mod error;
pub mod helpers;
pub mod middleware;
pub mod routes;
pub mod text;
pub mod trusted;
