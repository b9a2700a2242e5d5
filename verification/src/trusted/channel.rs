//! Bounded channels as `tokio::sync::mpsc` makes them.

use crate::background::decoder::DecodedEvent;
use std::sync::Arc;
use tokio::sync::mpsc::{Receiver, Sender};
use vstd::prelude::*;

verus! {

/// The sending end of a bounded channel.
#[verifier::external_type_specification]
#[verifier::external_body]
#[verifier::reject_recursive_types(T)]
pub struct ExSender<T>(Sender<T>);

/// The receiving end of a bounded channel.
#[verifier::external_type_specification]
#[verifier::external_body]
#[verifier::reject_recursive_types(T)]
pub struct ExReceiver<T>(Receiver<T>);

/// The end of a subscriber's channel that the broker writes to.
pub type EventSender = Sender<Arc<DecodedEvent>>;

/// The end of a subscriber's channel that the subscriber reads from.
pub type EventReceiver = Receiver<Arc<DecodedEvent>>;

/// The number of messages the channel behind `rx` was made to buffer: what
/// `Receiver::max_capacity` returns, which never changes for a channel.
pub uninterp spec fn receiver_bound(rx: EventReceiver) -> usize;

/// Calls `tokio::sync::mpsc::channel`, which panics on a capacity of zero or
/// above `usize::MAX >> 3`. The channel it makes buffers `capacity` messages.
#[verifier::external_body]
pub(crate) fn bounded_channel(capacity: usize) -> (ends: (EventSender, EventReceiver))
    requires
        0 < capacity <= usize::MAX / 8,
    ensures
        receiver_bound(ends.1) == capacity,
{
    tokio::sync::mpsc::channel(capacity)
}

} // verus!
