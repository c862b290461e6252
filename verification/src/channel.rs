//! What this crate assumes of the `crossbeam` channels that carry its queues.
//!
//! A channel is shared with other threads, so nothing here says what a receive
//! returns or whether a send is delivered: callers are verified for every outcome.

use crossbeam::channel::{unbounded, Receiver, RecvError, SendError, Sender};
use vstd::prelude::*;

verus! {

#[verifier::external_type_specification]
#[verifier::external_body]
#[verifier::reject_recursive_types(T)]
pub struct ExReceiver<T>(Receiver<T>);

#[verifier::external_type_specification]
#[verifier::external_body]
#[verifier::reject_recursive_types(T)]
pub struct ExSender<T>(Sender<T>);

#[verifier::external_type_specification]
#[verifier::external_body]
#[verifier::reject_recursive_types(T)]
pub struct ExSendError<T>(SendError<T>);

#[verifier::external_type_specification]
#[verifier::external_body]
pub struct ExRecvError(RecvError);

/// `unbounded`: a new channel without a limit, as its sending and its receiving
/// end.
pub assume_specification<T>[ unbounded::<T> ]() -> (ends: (Sender<T>, Receiver<T>))
;

/// `Sender::send`: hands a message to the channel. It fails when every receiver is
/// gone, which depends on other threads, so nothing is claimed of the result.
pub assume_specification<T>[ Sender::<T>::send ](tx: &Sender<T>, msg: T) -> (sent: Result<
    (),
    SendError<T>,
>)
;

/// `Receiver::recv`: waits for the next message. It fails when the channel is empty
/// and every sender is gone; nothing is claimed of the result.
pub assume_specification<T>[ Receiver::<T>::recv ](rx: &Receiver<T>) -> (got: Result<
    T,
    RecvError,
>)
;

/// `Receiver::try_iter`, collected: the messages that are ready right now, in
/// arrival order, without waiting. What is ready depends on the sending threads,
/// so nothing is claimed of the batch.
#[verifier::external_body]
pub(crate) fn drain<T>(rx: &Receiver<T>) -> (batch: Vec<T>) {
    rx.try_iter().collect()
}

/// `Receiver::clone`: a second handle on the same channel, which as a value is
/// the handle it was made from. A message goes to whichever handle takes it
/// first.
#[verifier::external_body]
pub(crate) fn share<T>(rx: &Receiver<T>) -> (other: Receiver<T>)
    ensures
        other == *rx,
{
    rx.clone()
}

/// `Sender::clone`: a second handle on the same channel, which as a value is the
/// handle it was made from.
#[verifier::external_body]
pub(crate) fn share_sender<T>(tx: &Sender<T>) -> (other: Sender<T>)
    ensures
        other == *tx,
{
    tx.clone()
}

/// `SendError`'s `Display`: the one text that every failed send is described
/// with.
#[verifier::external_body]
pub(crate) fn send_error_text() -> (text: String)
    ensures
        text@ == "sending on a disconnected channel"@,
{
    SendError(()).to_string()
}

} // verus!
