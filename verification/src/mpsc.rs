//! The channels of `std::sync::mpsc`, as far as the actor uses them. Verus
//! sees the endpoints as opaque values; what goes through a channel depends
//! on the other threads, so no call here promises anything about its result.

use std::sync::mpsc::{Receiver, RecvError, SendError, Sender, SyncSender, TrySendError};
use vstd::prelude::*;

verus! {

/// `std::sync::mpsc::Sender`: a sending end of an unbounded channel.
#[verifier::external_type_specification]
#[verifier::external_body]
#[verifier::reject_recursive_types(T)]
pub struct ExSender<T>(Sender<T>);

/// `std::sync::mpsc::SyncSender`: a sending end of a bounded channel.
#[verifier::external_type_specification]
#[verifier::external_body]
#[verifier::reject_recursive_types(T)]
pub struct ExSyncSender<T>(SyncSender<T>);

/// `std::sync::mpsc::Receiver`: the receiving end of a channel.
#[verifier::external_type_specification]
#[verifier::external_body]
#[verifier::reject_recursive_types(T)]
pub struct ExReceiver<T>(Receiver<T>);

/// `std::sync::mpsc::RecvError`: what `recv` fails with.
#[verifier::external_type_specification]
#[verifier::external_body]
pub struct ExRecvError(RecvError);

/// `std::sync::mpsc::SendError`: what `send` fails with; it holds the
/// message that could not be sent.
#[verifier::external_type_specification]
#[verifier::external_body]
#[verifier::reject_recursive_types(T)]
pub struct ExSendError<T>(SendError<T>);

/// `std::sync::mpsc::sync_channel`: a fresh channel that buffers at most
/// `bound` messages. Nothing is claimed of the two ends.
pub assume_specification<T>[ std::sync::mpsc::sync_channel::<T> ](bound: usize) -> (ends: (
    SyncSender<T>,
    Receiver<T>,
));

/// `Sender::send`: hands the message to the channel without waiting, or
/// back to the caller inside the error when the receiver is gone. Which of
/// the two happens is not claimed.
pub assume_specification<T>[ Sender::<T>::send ](sender: &Sender<T>, message: T) -> (sent: Result<
    (),
    SendError<T>,
>);

/// `SyncSender::clone`: one more sending end of the same channel. Nothing
/// is claimed of it.
pub assume_specification<T>[ <SyncSender<T> as Clone>::clone ](sender: &SyncSender<T>) -> (cloned:
    SyncSender<T>);

/// `Receiver::recv`: waits for the next message; fails once every sender is
/// gone and the buffer is empty. What arrives, and when, is not claimed.
pub assume_specification<T>[ Receiver::<T>::recv ](receiver: &Receiver<T>) -> (received: Result<
    T,
    RecvError,
>);

/// What became of a message offered to a bounded queue without waiting.
#[derive(Clone, Copy, Debug, PartialEq, Eq, Structural)]
pub enum Admission {
    /// The message is in the queue.
    Accepted,
    /// The queue was at capacity; the message was dropped.
    Full,
    /// The receiver is gone; the message was dropped.
    Disconnected,
}

/// `SyncSender::try_send`: offers `message` to the queue and returns at once.
/// Which of the three outcomes comes back depends on the queue at that
/// moment, so nothing is promised of it.
#[verifier::external_body]
pub(crate) fn offer<T>(sender: &SyncSender<T>, message: T) -> (admission: Admission) {
    match sender.try_send(message) {
        Ok(()) => Admission::Accepted,
        Err(TrySendError::Full(_)) => Admission::Full,
        Err(TrySendError::Disconnected(_)) => Admission::Disconnected,
    }
}

} // verus!
