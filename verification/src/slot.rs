//! The pending-result slot: the channel through which a recognition task
//! hands its text back to the frame path.

use std::sync::mpsc::{Receiver, Sender, TryRecvError};
use vstd::prelude::*;

verus! {

/// The sending end of std's channel, carried through as it is.
#[verifier::external_type_specification]
#[verifier::external_body]
#[verifier::reject_recursive_types(T)]
pub struct ExSender<T>(Sender<T>);

/// The receiving end of std's channel, carried through as it is.
#[verifier::external_type_specification]
#[verifier::external_body]
#[verifier::reject_recursive_types(T)]
pub struct ExReceiver<T>(Receiver<T>);

/// What one look into the slot finds.
pub enum SlotPoll {
    /// A recognition task has delivered this text.
    Ready(String),
    /// Nothing has been delivered yet.
    Empty,
    /// Every sending end is gone: nothing will ever be delivered.
    Disconnected,
}

/// What the frame path takes from one look into the slot: the text, if one
/// was delivered; nothing, if none was delivered yet; the empty text, if none
/// can be delivered any more.
pub open spec fn resolved(poll: SlotPoll) -> Option<Seq<char>> {
    match poll {
        SlotPoll::Ready(text) => Some(text@),
        SlotPoll::Empty => None,
        SlotPoll::Disconnected => Some(Seq::empty()),
    }
}

/// Turns one look into the slot into what the frame path takes from it.
pub fn resolve(poll: SlotPoll) -> (loaded: Option<String>)
    ensures
        loaded is Some == resolved(poll) is Some,
        loaded matches Some(text) ==> resolved(poll) == Some(text@),
{
    match poll {
        SlotPoll::Ready(text) => Some(text),
        SlotPoll::Empty => None,
        SlotPoll::Disconnected => Some(String::new()),
    }
}

/// Calls `std::sync::mpsc::channel`. Nothing is claimed of the two ends.
#[verifier::external_body]
pub(crate) fn open_slot() -> (ends: (Sender<String>, Receiver<String>)) {
    std::sync::mpsc::channel()
}

/// Calls `Sender::clone`. Nothing is claimed of the new sending end.
#[verifier::external_body]
pub(crate) fn share_sender(sender: &Sender<String>) -> (shared: Sender<String>) {
    sender.clone()
}

/// Calls `Receiver::try_recv`, which does not block, and hands on what it
/// found. What it finds depends on the sending side, so nothing is claimed of
/// the result.
#[verifier::external_body]
pub(crate) fn poll_slot(receiver: &Receiver<String>) -> (poll: SlotPoll) {
    match receiver.try_recv() {
        Ok(text) => SlotPoll::Ready(text),
        Err(TryRecvError::Empty) => SlotPoll::Empty,
        Err(TryRecvError::Disconnected) => SlotPoll::Disconnected,
    }
}

/// Calls `Sender::send`, which does not block. As std documents, a text that
/// could not be sent, because the receiving end is gone, comes back as it
/// was. Whether the receiving end is gone is decided elsewhere, so nothing is
/// claimed of which of the two happens.
#[verifier::external_body]
pub(crate) fn deliver(sender: &Sender<String>, text: String) -> (outcome: Result<(), String>)
    ensures
        outcome matches Err(back) ==> back@ == text@,
{
    match sender.send(text) {
        Ok(()) => Ok(()),
        Err(error) => Err(error.0),
    }
}

} // verus!
