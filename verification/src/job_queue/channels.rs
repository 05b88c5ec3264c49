//! The channels between those who add jobs and those who run them.

use vstd::prelude::*;

use crate::job_queue::handle::JobCompletion;
use crate::job_queue::scheduler::JobQueueMsg;

verus! {

/// `tokio`'s receiver of one value.
#[verifier::external_type_specification]
#[verifier::external_body]
#[verifier::reject_recursive_types(T)]
pub struct ExOneshotReceiver<T>(tokio::sync::oneshot::Receiver<T>);

/// What `tokio`'s receiver of one value reports when the sender is gone.
#[verifier::external_type_specification]
#[verifier::external_body]
pub struct ExOneshotRecvError(tokio::sync::oneshot::error::RecvError);

/// `tokio`'s sender of one value.
#[verifier::external_type_specification]
#[verifier::external_body]
#[verifier::reject_recursive_types(T)]
pub struct ExOneshotSender<T>(tokio::sync::oneshot::Sender<T>);

/// `tokio`'s sender of a value that can be watched.
#[verifier::external_type_specification]
#[verifier::external_body]
#[verifier::reject_recursive_types(T)]
pub struct ExWatchSender<T>(tokio::sync::watch::Sender<T>);

/// `tokio`'s receiver of a value that can be watched.
#[verifier::external_type_specification]
#[verifier::external_body]
#[verifier::reject_recursive_types(T)]
pub struct ExWatchReceiver<T>(tokio::sync::watch::Receiver<T>);

/// `tokio`'s sender of any number of values.
#[verifier::external_type_specification]
#[verifier::external_body]
#[verifier::reject_recursive_types(T)]
pub struct ExUnboundedSender<T>(tokio::sync::mpsc::UnboundedSender<T>);

/// Calls `tokio`'s `oneshot::channel`. Nothing is claimed of the two ends.
#[verifier::external_body]
pub(crate) fn result_channel<R, E>() -> (r: (
    tokio::sync::oneshot::Sender<JobCompletion<R, E>>,
    tokio::sync::oneshot::Receiver<JobCompletion<R, E>>,
)) {
    tokio::sync::oneshot::channel()
}

/// The two ends are those of one result channel, as it was made.
pub open(crate) spec fn are_ends_of_result_channel<R, E>(
    tx: tokio::sync::oneshot::Sender<JobCompletion<R, E>>,
    rx: tokio::sync::oneshot::Receiver<JobCompletion<R, E>>,
) -> bool {
    call_ensures(result_channel::<R, E>, (), (tx, rx))
}

/// Calls `send` of `tokio`'s `oneshot::Sender`. If the completion was not sent, which happens when
/// the receiver is gone, it comes back unchanged.
#[verifier::external_body]
pub(crate) fn send_completion<R, E>(
    tx: tokio::sync::oneshot::Sender<JobCompletion<R, E>>,
    completion: JobCompletion<R, E>,
) -> (r: Result<(), JobCompletion<R, E>>)
    ensures
        match r {
            Ok(()) => true,
            Err(returned) => returned == completion,
        },
{
    tx.send(completion)
}

/// An attempt to send this completion through this channel came to this.
pub open(crate) spec fn is_completion_outcome<R, E>(
    tx: tokio::sync::oneshot::Sender<JobCompletion<R, E>>,
    completion: JobCompletion<R, E>,
    sent: Result<(), JobCompletion<R, E>>,
) -> bool {
    call_ensures(send_completion::<R, E>, (tx, completion), sent)
}

/// Calls `tokio`'s `watch::channel`. Nothing is claimed of the two ends.
#[verifier::external_body]
pub(crate) fn cancel_channel() -> (r: (
    tokio::sync::watch::Sender<()>,
    tokio::sync::watch::Receiver<()>,
)) {
    tokio::sync::watch::channel(())
}

/// The two ends are those of one cancel channel, as it was made.
pub open(crate) spec fn are_ends_of_cancel_channel(
    tx: tokio::sync::watch::Sender<()>,
    rx: tokio::sync::watch::Receiver<()>,
) -> bool {
    call_ensures(cancel_channel, (), (tx, rx))
}

/// Calls `clone` of `tokio`'s `watch::Sender`: another sender into the same channel, of which
/// nothing is claimed.
#[verifier::external_body]
pub(crate) fn clone_cancel_sender(tx: &tokio::sync::watch::Sender<()>) -> (r:
    tokio::sync::watch::Sender<()>) {
    tx.clone()
}

/// The second sender is a clone of the first one, and so sends into the same channel.
pub open(crate) spec fn is_clone_of_sender(
    tx: tokio::sync::watch::Sender<()>,
    clone: tokio::sync::watch::Sender<()>,
) -> bool {
    call_ensures(clone_cancel_sender, (&tx,), clone)
}

/// Calls `send` of `tokio`'s `watch::Sender`. It tells whether the value was sent, which depends on
/// whether there still is a receiver.
#[verifier::external_body]
pub(crate) fn send_cancel(tx: &tokio::sync::watch::Sender<()>) -> (sent: bool) {
    tx.send(()).is_ok()
}

/// An attempt to send a cancellation through this channel came to this: it was sent, or it was not.
pub open(crate) spec fn is_cancel_outcome(tx: tokio::sync::watch::Sender<()>, sent: bool) -> bool {
    call_ensures(send_cancel, (&tx,), sent)
}

/// Calls `is_closed` of `tokio`'s `watch::Sender`: whether all receivers are gone.
#[verifier::external_body]
pub(crate) fn cancel_channel_is_closed(tx: &tokio::sync::watch::Sender<()>) -> (closed: bool) {
    tx.is_closed()
}

/// This channel, when asked whether it is closed, gave this answer.
pub open(crate) spec fn is_closed_outcome(
    tx: tokio::sync::watch::Sender<()>,
    closed: bool,
) -> bool {
    call_ensures(cancel_channel_is_closed, (&tx,), closed)
}

/// Calls `send` of `tokio`'s `mpsc::UnboundedSender`. If the message was not sent, which happens
/// when the receiver is gone, it comes back unchanged.
#[verifier::external_body]
pub(crate) fn send_msg<J, R, E, P>(
    tx: &tokio::sync::mpsc::UnboundedSender<JobQueueMsg<J, R, E, P>>,
    msg: JobQueueMsg<J, R, E, P>,
) -> (r: Result<(), JobQueueMsg<J, R, E, P>>)
    ensures
        match r {
            Ok(()) => true,
            Err(returned) => returned == msg,
        },
{
    tx.send(msg).map_err(|e| e.0)
}

/// An attempt to send this message through this channel came to this.
pub open(crate) spec fn is_send_outcome<J, R, E, P>(
    tx: tokio::sync::mpsc::UnboundedSender<JobQueueMsg<J, R, E, P>>,
    msg: JobQueueMsg<J, R, E, P>,
    sent: Result<(), JobQueueMsg<J, R, E, P>>,
) -> bool {
    call_ensures(send_msg::<J, R, E, P>, (&tx, msg), sent)
}

/// Calls `to_string` of `tokio`'s `mpsc::error::SendError`, whose text does not depend on the
/// message that was not sent.
#[verifier::external_body]
pub(crate) fn send_error_text<J, R, E, P>(msg: JobQueueMsg<J, R, E, P>) -> (s: String)
    ensures
        s@ == "channel closed"@,
{
    tokio::sync::mpsc::error::SendError(msg).to_string()
}

} // verus!
