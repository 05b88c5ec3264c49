//! Handles by which jobs are cancelled and their results received.

use vstd::prelude::*;

use crate::job_queue::channels::is_cancel_outcome;
use crate::job_queue::channels::send_cancel;

verus! {

/// How a job ended. Its result is an `R`; if it panicked, an `E` tells why.
#[derive(Debug)]
pub enum JobCompletion<R, E> {
    Finished(R),
    Cancelled,
    Panicked(E),
}

/// Why there is no result.
#[derive(Debug)]
pub enum JobHandleError<E> {
    /// The job was cancelled.
    JobCancelled,
    /// The job panicked.
    JobPanicked(E),
    /// The job could not be told to cancel because nobody listens any more.
    CancelJobError,
    /// Nobody will ever send a result.
    JobResultError,
}

/// How the task that ran a job ended.
#[derive(Debug)]
pub enum TaskOutcome<R, E> {
    /// The task returned how the job ended.
    Returned(JobCompletion<R, E>),
    /// The task panicked.
    Panicked(E),
    /// The task was cancelled.
    Cancelled,
}

/// How a job ended, given how the task that ran it did.
pub open spec fn completion_of<R, E>(outcome: TaskOutcome<R, E>) -> JobCompletion<R, E> {
    match outcome {
        TaskOutcome::Returned(completion) => completion,
        TaskOutcome::Panicked(e) => JobCompletion::Panicked(e),
        TaskOutcome::Cancelled => JobCompletion::Cancelled,
    }
}

/// How a job ended, given how the task that ran it did.
pub fn job_completion<R, E>(outcome: TaskOutcome<R, E>) -> (c: JobCompletion<R, E>)
    ensures
        c == completion_of(outcome),
{
    match outcome {
        TaskOutcome::Returned(completion) => completion,
        TaskOutcome::Panicked(e) => JobCompletion::Panicked(e),
        TaskOutcome::Cancelled => JobCompletion::Cancelled,
    }
}

/// How a job ended, given what was received from the one who ran it.
pub fn received_completion<R, E>(received: Result<
    JobCompletion<R, E>,
    tokio::sync::oneshot::error::RecvError,
>) -> (r: Result<
    JobCompletion<R, E>,
    JobHandleError<E>,
>)
    ensures
        r == match received {
            Ok(completion) => Ok::<JobCompletion<R, E>, JobHandleError<E>>(completion),
            Err(_) => Err(JobHandleError::JobResultError),
        },
{
    match received {
        Ok(completion) => Ok(completion),
        Err(_) => Err(JobHandleError::JobResultError),
    }
}

/// The result of a job, or why there is none, given what was received from the one who ran it.
pub open spec fn result_of<R, E>(
    received: Result<JobCompletion<R, E>, tokio::sync::oneshot::error::RecvError>,
) -> Result<R, JobHandleError<E>> {
    match received {
        Ok(JobCompletion::Finished(result)) => Ok(result),
        Ok(JobCompletion::Cancelled) => Err(JobHandleError::JobCancelled),
        Ok(JobCompletion::Panicked(e)) => Err(JobHandleError::JobPanicked(e)),
        Err(_) => Err(JobHandleError::JobResultError),
    }
}

/// The result of a job, or why there is none, given what was received from the one who ran it.
pub fn job_result<R, E>(received: Result<
    JobCompletion<R, E>,
    tokio::sync::oneshot::error::RecvError,
>) -> (r: Result<R, JobHandleError<E>>)
    ensures
        r == result_of(received),
{
    match received_completion(received) {
        Ok(JobCompletion::Finished(result)) => Ok(result),
        Ok(JobCompletion::Cancelled) => Err(JobHandleError::JobCancelled),
        Ok(JobCompletion::Panicked(e)) => Err(JobHandleError::JobPanicked(e)),
        Err(e) => Err(e),
    }
}

/// What [`JobHandle::cancel`] returns, given whether the job could be told.
pub fn cancel_result<E>(sent: bool) -> (r: Result<(), JobHandleError<E>>)
    ensures
        r == if sent {
            Ok::<(), JobHandleError<E>>(())
        } else {
            Err(JobHandleError::CancelJobError)
        },
{
    if sent {
        Ok(())
    } else {
        Err(JobHandleError::CancelJobError)
    }
}

/// Enables cancelling a job and awaiting its result.
#[derive(Debug)]
#[verifier::reject_recursive_types(R)]
#[verifier::reject_recursive_types(E)]
pub struct JobHandle<R, E> {
    result_rx: tokio::sync::oneshot::Receiver<JobCompletion<R, E>>,
    cancel_tx: tokio::sync::watch::Sender<()>,
}

impl<R, E> JobHandle<R, E> {
    /// Where the job's completion arrives.
    pub closed spec fn spec_result_rx(self) -> tokio::sync::oneshot::Receiver<JobCompletion<R, E>> {
        self.result_rx
    }

    /// By what the job is told to cancel.
    pub closed spec fn spec_cancel_tx(self) -> tokio::sync::watch::Sender<()> {
        self.cancel_tx
    }

    /// A handle for the job that answers to these channels.
    pub fn new(
        result_rx: tokio::sync::oneshot::Receiver<JobCompletion<R, E>>,
        cancel_tx: tokio::sync::watch::Sender<()>,
    ) -> (h: JobHandle<R, E>)
        ensures
            h.spec_result_rx() == result_rx,
            h.spec_cancel_tx() == cancel_tx,
    {
        JobHandle { result_rx, cancel_tx }
    }

    /// Cancels the job and returns immediately.
    ///
    /// The job is told through its own channel. This fails exactly when that channel does not take
    /// the message, because nobody listens any more; whether that is so depends on the job.
    pub fn cancel(&self) -> (r: Result<(), JobHandleError<E>>)
        ensures
            match r {
                Ok(()) => is_cancel_outcome(self.spec_cancel_tx(), true),
                Err(e) => e is CancelJobError && is_cancel_outcome(self.spec_cancel_tx(), false),
            },
    {
        cancel_result(send_cancel(&self.cancel_tx))
    }

    /// The channel receiver for job results.
    pub fn result_rx(self) -> (rx: tokio::sync::oneshot::Receiver<JobCompletion<R, E>>)
        ensures
            rx == self.spec_result_rx(),
    {
        self.result_rx
    }

    /// The channel sender for cancelling the job.
    pub fn cancel_tx(&self) -> (tx: &tokio::sync::watch::Sender<()>)
        ensures
            *tx == self.spec_cancel_tx(),
    {
        &self.cancel_tx
    }
}

} // verus!
