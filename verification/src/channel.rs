//! The result channel: many workers send, the coordinator receives.

use crate::result::SearchResult;
use std::sync::mpsc::{Receiver, Sender};
use vstd::prelude::*;

verus! {

/// The sending half of a std channel, carried as an opaque value.
#[verifier::external_type_specification]
#[verifier::external_body]
#[verifier::reject_recursive_types(T)]
pub struct ExSender<T>(std::sync::mpsc::Sender<T>);

/// The receiving half of a std channel, carried as an opaque value.
#[verifier::external_type_specification]
#[verifier::external_body]
#[verifier::reject_recursive_types(T)]
pub struct ExReceiver<T>(std::sync::mpsc::Receiver<T>);

/// Calls `std::sync::mpsc::channel`: a fresh unbounded channel.
#[verifier::external_body]
pub(crate) fn result_channel() -> (ends: (Sender<SearchResult>, Receiver<SearchResult>)) {
    std::sync::mpsc::channel()
}

/// Calls `Sender::clone`: one more sending half of the same channel.
#[verifier::external_body]
pub(crate) fn share_sender(sender: &Sender<SearchResult>) -> (shared: Sender<SearchResult>) {
    sender.clone()
}

/// Calls `Sender::send`, which never waits. The answer is whether the value
/// was taken; it is not once the receiving half is gone. Nothing is claimed
/// of the answer.
#[verifier::external_body]
pub(crate) fn deliver(sender: &Sender<SearchResult>, result: SearchResult) -> (taken: bool) {
    sender.send(result).is_ok()
}

/// Calls `Receiver::recv`, which waits until a value arrives or every sending
/// half is gone; `None` stands for the latter. Nothing is claimed of the
/// result: which worker's value arrives first is decided by the race.
#[verifier::external_body]
pub(crate) fn receive(receiver: &Receiver<SearchResult>) -> (received: Option<SearchResult>) {
    receiver.recv().ok()
}

} // verus!
