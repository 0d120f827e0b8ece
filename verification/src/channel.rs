//! The channel endpoints that a handle and its worker share.
//!
//! Nothing is known here of what the other end does: a send may or may not
//! find a receiver, and a receive yields whatever was queued, if anything.

use vstd::prelude::*;
use std::sync::mpsc::{Receiver, Sender};

verus! {

/// `std::sync::mpsc::Sender`, the sending end of a channel. Nothing is known
/// of what it holds.
#[verifier::external_type_specification]
#[verifier::external_body]
#[verifier::reject_recursive_types(T)]
pub struct ExSender<T>(Sender<T>);

/// `std::sync::mpsc::Receiver`, the receiving end of a channel. Nothing is
/// known of what it holds.
#[verifier::external_type_specification]
#[verifier::external_body]
#[verifier::reject_recursive_types(T)]
pub struct ExReceiver<T>(Receiver<T>);

/// `Sender::send`: queues `message` without blocking and without panicking,
/// or, when the receiving end is gone, hands the same message back. Nothing is
/// claimed of which of the two happens.
#[verifier::external_body]
pub(crate) fn send_message<T>(sender: &Sender<T>, message: T) -> (undelivered: Option<T>)
    ensures
        undelivered matches Some(returned) ==> returned == message,
    opens_invariants none
    no_unwind
{
    match sender.send(message) {
        Ok(()) => None,
        Err(error) => Some(error.0),
    }
}

/// `Receiver::recv`: blocks until a message arrives and returns it, or returns
/// `None` once every sender is gone and the queue is empty. Nothing is claimed
/// of what arrives.
#[verifier::external_body]
pub(crate) fn receive_message<T>(receiver: &Receiver<T>) -> (message: Option<T>) {
    receiver.recv().ok()
}

} // verus!
