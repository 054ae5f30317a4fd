//! Trusted boundary around `flume` channels.
//!
//! The slot uses two channels: an unbounded cancellation channel whose
//! receiving half lives inside the execution engine, and a single-slot
//! completion channel on which the terminal response is published for a
//! concurrent waiter. Delivery on a channel depends on the other endpoint at
//! run time, so nothing is promised about it here; every caller in this crate
//! states what holds of its own state whatever the channel does.

use vstd::prelude::*;

verus! {

#[verifier::external_type_specification]
#[verifier::external_body]
#[verifier::reject_recursive_types(T)]
pub struct ExSender<T>(flume::Sender<T>);

#[verifier::external_type_specification]
#[verifier::external_body]
#[verifier::reject_recursive_types(T)]
pub struct ExReceiver<T>(flume::Receiver<T>);

/// Relies on `flume::unbounded`: a fresh channel pair; sending on it never
/// blocks.
#[verifier::external_body]
pub(crate) fn new_unbounded<T>() -> (r: (flume::Sender<T>, flume::Receiver<T>)) {
    flume::unbounded()
}

/// Relies on `flume::bounded`: a fresh channel pair holding at most `cap`
/// pending messages.
#[verifier::external_body]
pub(crate) fn new_bounded<T>(cap: usize) -> (r: (flume::Sender<T>, flume::Receiver<T>)) {
    flume::bounded(cap)
}

/// Relies on `flume::Sender::try_send`: delivers `msg` unless the channel is
/// full or every receiver was dropped, in which case the message is
/// discarded. Unlike `send`, it never blocks, whatever channel and state it
/// is handed; on the unbounded cancellation channel the two behave alike,
/// and a completion channel is empty at its single intended send.
#[verifier::external_body]
pub(crate) fn send_one<T>(tx: &flume::Sender<T>, msg: T) {
    let _ = tx.try_send(msg);
}

/// Relies on `flume::Receiver::is_disconnected`: true exactly when every
/// sender was dropped, which depends on the other endpoint at run time.
#[verifier::external_body]
pub(crate) fn receiver_closed<T>(rx: &flume::Receiver<T>) -> (b: bool) {
    rx.is_disconnected()
}

/// Relies on `flume::Receiver::clone` (hand-written in flume): a second
/// handle on the same channel.
pub assume_specification<T>[ <flume::Receiver<T> as Clone>::clone ](rx: &flume::Receiver<T>) -> (res:
    flume::Receiver<T>)
;

} // verus!
