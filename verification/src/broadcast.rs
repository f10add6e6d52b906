//! The channels on which nodes, links and the graph announce their changes:
//! tokio's broadcast channel, used through a few trusted calls.
//!
//! A `Chan` holds a sender and the record of every value handed to
//! `Sender::send` through it; only `Chan::send`, which makes that call, adds
//! to the record. What receivers then see depends on the receivers that exist
//! at the moment of sending, which other threads create and drop, and is not
//! claimed.
use tokio::sync::broadcast::{Receiver, Sender};
use vstd::prelude::*;

verus! {

/// The sending half of `tokio::sync::broadcast`.
#[verifier::external_type_specification]
#[verifier::external_body]
#[verifier::reject_recursive_types(T)]
pub struct ExSender<T>(Sender<T>);

/// The receiving half of `tokio::sync::broadcast`.
#[verifier::external_type_specification]
#[verifier::external_body]
#[verifier::reject_recursive_types(T)]
pub struct ExReceiver<T>(Receiver<T>);

/// A new channel that holds up to 25 values, through
/// `tokio::sync::broadcast::channel(25)`; the receiver it also makes is
/// dropped. `channel` panics only for a capacity of 0 or above
/// `usize::MAX / 2`, which 25 is not. Nothing is claimed of the sender.
#[verifier::external_body]
fn open_channel<T: Clone>() -> Sender<T> {
    let (sender, _) = tokio::sync::broadcast::channel(25);
    sender
}

/// A receiver of the values sent on the channel from now on, through
/// `Sender::subscribe`. Nothing is claimed of the receiver; `subscribe`
/// panics when the channel already has `usize::MAX >> 2` receivers, a count
/// that other threads change and that no precondition here can state.
#[verifier::external_body]
fn subscribe_channel<T>(sender: &Sender<T>) -> Receiver<T> {
    sender.subscribe()
}

/// Another sender on the same channel, through `<Sender as Clone>::clone`.
/// Nothing is claimed of it.
#[verifier::external_body]
fn clone_sender<T>(sender: &Sender<T>) -> Sender<T> {
    sender.clone()
}

/// A sending end of a broadcast channel together with the record of every
/// value handed to the channel through it, oldest first. A sending end made
/// by `duplicate` starts with the record of the end it was duplicated from,
/// which holds what that end sent up to the duplication; later sends through
/// either end are recorded only in that end.
#[verifier::reject_recursive_types(T)]
pub struct Chan<T: View> {
    sender: Sender<T>,
    log: Ghost<Seq<T::V>>,
}

impl<T: View> Chan<T> {
    /// The values handed to the channel through this sending end (and,
    /// for a duplicate, through its original up to the duplication), oldest
    /// first.
    pub closed spec fn log(&self) -> Seq<T::V> {
        self.log@
    }

    /// A new channel, nothing handed to it yet.
    pub(crate) fn new() -> (r: Self)
        where T: Clone,
        ensures
            r.log() == Seq::<T::V>::empty(),
    {
        Chan { sender: open_channel(), log: Ghost(Seq::empty()) }
    }

    /// Hands `event` to every current receiver of the channel, through
    /// `Sender::send`, and records it. The send's result (the number of
    /// receivers, or the value back when there are none) depends on the
    /// receivers that exist at that moment and is dropped; the claim is only
    /// that `event` was the value given to `Sender::send`.
    #[verifier::external_body]
    pub(crate) fn send(&mut self, event: T)
        ensures
            final(self).log() == old(self).log().push(event@),
    {
        let _ = self.sender.send(event);
    }

    /// A receiver of the values sent on the channel from now on.
    pub(crate) fn subscribe(&self) -> Receiver<T> {
        subscribe_channel(&self.sender)
    }

    /// Another sending end on the same channel, with the same record.
    pub(crate) fn duplicate(&self) -> (r: Self)
        ensures
            r.log() == self.log(),
    {
        Chan { sender: clone_sender(&self.sender), log: self.log }
    }
}

} // verus!
