//! The channels that carry messages between tasks: the bounded outbound queue
//! of a connection and the single-shot slot of a pending request. Both come
//! from tokio; what the other half of a channel does is not known here, so
//! nothing is said of how an attempt to send or to fill ends.

use vstd::prelude::*;
use tokio::sync::mpsc;
use tokio::sync::oneshot;

verus! {

/// Sending half of tokio's bounded channel.
#[verifier::external_type_specification]
#[verifier::external_body]
#[verifier::reject_recursive_types(T)]
pub struct ExQueueSender<T>(mpsc::Sender<T>);

/// Receiving half of tokio's bounded channel.
#[verifier::external_type_specification]
#[verifier::external_body]
#[verifier::reject_recursive_types(T)]
pub struct ExQueueReceiver<T>(mpsc::Receiver<T>);

/// Sending half of tokio's single-shot channel.
#[verifier::external_type_specification]
#[verifier::external_body]
#[verifier::reject_recursive_types(T)]
pub struct ExSlotSender<T>(oneshot::Sender<T>);

/// Receiving half of tokio's single-shot channel.
#[verifier::external_type_specification]
#[verifier::external_body]
#[verifier::reject_recursive_types(T)]
pub struct ExSlotReceiver<T>(oneshot::Receiver<T>);

/// The error with which a waiting receiver of a single-shot channel learns
/// that the sender is gone. Nothing here names it; it is declared because the
/// receiving half resolves to it as a future, and Verus asks for every
/// type that a declared type's impls name.
#[verifier::external_type_specification]
#[verifier::external_body]
pub struct ExSlotClosed(oneshot::error::RecvError);

/// The largest capacity that a bounded channel can be made with: an eighth of
/// the largest `usize`.
pub open spec fn max_queue_capacity() -> int {
    usize::MAX as int / 8
}

/// How an attempt to enqueue a message ended.
#[derive(Debug, Clone, Copy, PartialEq, Eq, Structural)]
pub enum SendOutcome {
    /// The message is in the queue.
    Sent,
    /// The queue holds as many messages as it may; the message was dropped.
    Full,
    /// The receiving half is gone; the message was dropped.
    Closed,
}

/// `tokio::sync::oneshot::channel`: a new single-shot channel. Nothing is
/// claimed of the two halves.
#[verifier::external_body]
pub(crate) fn single_shot<T>() -> (halves: (oneshot::Sender<T>, oneshot::Receiver<T>)) {
    oneshot::channel()
}

/// `tokio::sync::oneshot::Sender::send`: hands the value to the receiver.
/// Returns whether the receiver was still there to take it; nothing is
/// claimed of that.
#[verifier::external_body]
pub(crate) fn fill_slot<T>(slot: oneshot::Sender<T>, value: T) -> (taken: bool) {
    slot.send(value).is_ok()
}

} // verus!
