//! No job is lost, none is run twice, and the order is the promised one.

use core::cmp::Ordering;
use vstd::prelude::*;
use vstd::seq_lib::to_multiset_build;
use vstd::seq_lib::to_multiset_remove;
use vstd::std_specs::cmp::OrdSpec;

use crate::job_queue::channels::are_ends_of_cancel_channel;
use crate::job_queue::channels::are_ends_of_result_channel;
use crate::job_queue::channels::is_clone_of_sender;
use crate::job_queue::handle::completion_of;
use crate::job_queue::handle::result_of;
use crate::job_queue::handle::JobCompletion;
use crate::job_queue::handle::JobHandle;
use crate::job_queue::handle::JobHandleError;
use crate::job_queue::handle::TaskOutcome;
use crate::job_queue::scheduler::is_handle_of;
use crate::job_queue::scheduler::is_permutation;
use crate::job_queue::scheduler::sorts_by;
use crate::job_queue::scheduler::stably_sorted;
use crate::job_queue::scheduler::AddJobMsg;
use crate::job_queue::scheduler::JobScheduler;

verus! {

/// A list that is put in another order holds the same items, each as often as before.
proof fn lemma_permuted_items<T>(before: Seq<T>, after: Seq<T>, perm: Seq<int>)
    requires
        before.len() == after.len() == perm.len(),
        forall|i: int| 0 <= i < perm.len() ==> 0 <= #[trigger] perm[i] < perm.len(),
        forall|i: int, j: int|
            0 <= i < j < perm.len() ==> #[trigger] perm[i] != #[trigger] perm[j],
        forall|i: int| 0 <= i < after.len() ==> #[trigger] after[i] == before[perm[i]],
    ensures
        before.to_multiset() == after.to_multiset(),
    decreases before.len(),
{
    if before.len() == 0 {
        assert(before =~= after);
    } else {
        let last = before.len() - 1;
        let k = perm[last];
        let rest = before.remove(k);
        let start = after.drop_last();
        let moved = Seq::new(
            last as nat,
            |i: int|
                if perm[i] < k {
                    perm[i]
                } else {
                    perm[i] - 1
                },
        );
        assert forall|i: int| 0 <= i < moved.len() implies 0 <= #[trigger] moved[i]
            < moved.len() by {
            assert(perm[i] != perm[last]);
            assert(0 <= perm[i] < perm.len());
        }
        assert forall|i: int, j: int| 0 <= i < j < moved.len() implies #[trigger] moved[i]
            != #[trigger] moved[j] by {
            assert(perm[i] != perm[j]);
            assert(perm[i] != perm[last] && perm[j] != perm[last]);
        }
        assert forall|i: int| 0 <= i < start.len() implies #[trigger] start[i]
            == rest[moved[i]] by {
            assert(start[i] == after[i]);
            assert(perm[i] != perm[last]);
            assert(0 <= perm[i] < perm.len());
        }
        lemma_permuted_items(rest, start, moved);
        assert(after[last] == before[k]);
        assert(after =~= start.push(before[k]));
        to_multiset_build(start, before[k]);
        to_multiset_remove(before, k);
        assert(before.contains(before[k]));
        before.to_multiset_ensures();
        assert(before.to_multiset().count(before[k]) > 0);
        assert(before.to_multiset() =~= rest.to_multiset().insert(before[k]));
    }
}

/// The job that is run next, and those that still wait, are those that waited before: none is lost,
/// and none is there more often.
pub proof fn lemma_no_job_is_lost_or_repeated<J, R, E, P: Ord>(
    before: Seq<AddJobMsg<J, R, E, P>>,
    next: AddJobMsg<J, R, E, P>,
    rest: Seq<AddJobMsg<J, R, E, P>>,
)
    requires
        stably_sorted(before, seq![next] + rest),
    ensures
        before.to_multiset() == (seq![next] + rest).to_multiset(),
        before.contains(next),
        rest.len() == before.len() - 1,
{
    let after = seq![next] + rest;
    let perm = choose|perm: Seq<int>| sorts_by(before, after, perm);
    assert(is_permutation(perm));
    lemma_permuted_items(before, after, perm);
    assert(after[0] == next);
    assert(before[perm[0]] == next);
}

/// No job that still waits compares greater than the one that is run next.
pub proof fn lemma_no_waiting_job_is_more_urgent<J, R, E, P: Ord>(
    before: Seq<AddJobMsg<J, R, E, P>>,
    next: AddJobMsg<J, R, E, P>,
    rest: Seq<AddJobMsg<J, R, E, P>>,
    i: int,
)
    requires
        stably_sorted(before, seq![next] + rest),
        0 <= i < rest.len(),
    ensures
        next.priority.cmp_spec(&rest[i].priority) != Ordering::Less,
{
    let after = seq![next] + rest;
    assert(after[0] == next && after[i + 1] == rest[i]);
}

/// A job that was queued before another one, and does not compare less, is not run after it.
pub proof fn lemma_first_come_first_served<J, R, E, P: Ord>(
    before: Seq<AddJobMsg<J, R, E, P>>,
    rest: Seq<AddJobMsg<J, R, E, P>>,
    i: int,
    j: int,
)
    requires
        0 <= i < j < before.len(),
        stably_sorted(before, seq![before[j]] + rest),
        forall|k: int|
            0 <= k < before.len() && k != j ==> #[trigger] before[k] != before[j],
    ensures
        before[j].priority.cmp_spec(&before[i].priority) == Ordering::Greater,
{
    let after = seq![before[j]] + rest;
    let perm = choose|perm: Seq<int>| sorts_by(before, after, perm);
    assert(after[0] == before[perm[0]]);
    assert(perm[0] == j);
    lemma_permutation_covers(perm, i);
    let k = choose|k: int| 0 <= k < perm.len() && #[trigger] perm[k] == i;
    assert(after[k] == before[i]);
    assert(k != 0);
    assert(perm[0] > perm[k]);
}

/// A list of different numbers below its own length holds all of them.
proof fn lemma_permutation_covers(perm: Seq<int>, x: int)
    requires
        is_permutation(perm),
        0 <= x < perm.len(),
    ensures
        exists|k: int| 0 <= k < perm.len() && #[trigger] perm[k] == x,
    decreases perm.len(),
{
    let last = perm.len() - 1;
    if perm[last] != x {
        let top = perm[last];
        let moved = Seq::new(
            last as nat,
            |i: int|
                if perm[i] < top {
                    perm[i]
                } else {
                    perm[i] - 1
                },
        );
        assert forall|i: int| 0 <= i < moved.len() implies 0 <= #[trigger] moved[i]
            < moved.len() by {
            assert(perm[i] != perm[last]);
            assert(0 <= perm[i] < perm.len());
        }
        assert forall|i: int, j: int| 0 <= i < j < moved.len() implies #[trigger] moved[i]
            != #[trigger] moved[j] by {
            assert(perm[i] != perm[j]);
            assert(perm[i] != perm[last] && perm[j] != perm[last]);
        }
        let y = if x < top {
            x
        } else {
            x - 1
        };
        assert(0 <= top < perm.len());
        lemma_permutation_covers(moved, y);
        let k = choose|k: int| 0 <= k < moved.len() && #[trigger] moved[k] == y;
        assert(perm[k] != perm[last]);
        assert(perm[k] == x);
    }
}

/// When a job has ended, the next one gets the next number, and nothing that waits is touched.
pub proof fn lemma_job_ends<J, R, E, P>(
    before: JobScheduler<J, R, E, P>,
    after: JobScheduler<J, R, E, P>,
)
    requires
        after.is_after_job(before),
    ensures
        after.jobs@ == before.jobs@,
        after.current_job is None,
        after.job_num == before.job_num + 1,
{
}

/// The owner of a job gets exactly what the job returned, if it returned anything; otherwise they
/// learn whether it was cancelled or panicked, and with what.
pub proof fn lemma_owner_learns_how_job_ended<R, E>(result: R, e: E)
    ensures
        completion_of(TaskOutcome::<R, E>::Returned(JobCompletion::Finished(result)))
            == JobCompletion::<R, E>::Finished(result),
        completion_of(TaskOutcome::<R, E>::Returned(JobCompletion::Cancelled)) == JobCompletion::<
            R,
            E,
        >::Cancelled,
        completion_of(TaskOutcome::<R, E>::Returned(JobCompletion::Panicked(e)))
            == JobCompletion::<R, E>::Panicked(e),
        completion_of(TaskOutcome::<R, E>::Panicked(e)) == JobCompletion::<R, E>::Panicked(e),
        completion_of(TaskOutcome::<R, E>::Cancelled) == JobCompletion::<R, E>::Cancelled,
        result_of(Ok(JobCompletion::<R, E>::Finished(result))) == Ok::<R, JobHandleError<E>>(
            result,
        ),
        result_of(Ok(JobCompletion::<R, E>::Cancelled)) == Err::<R, JobHandleError<E>>(
            JobHandleError::JobCancelled,
        ),
        result_of(Ok(JobCompletion::<R, E>::Panicked(e))) == Err::<R, JobHandleError<E>>(
            JobHandleError::JobPanicked(e),
        ),
        forall|gone: tokio::sync::oneshot::error::RecvError| #[trigger]
            result_of(Err::<JobCompletion<R, E>, tokio::sync::oneshot::error::RecvError>(gone))
                == Err::<R, JobHandleError<E>>(JobHandleError::JobResultError),
{
}

/// A handle and the message it belongs to share both of their channels.
pub proof fn lemma_handle_shares_channels<J, R, E, P>(
    handle: JobHandle<R, E>,
    msg: AddJobMsg<J, R, E, P>,
)
    requires
        is_handle_of(handle, msg),
    ensures
        are_ends_of_result_channel(msg.result_tx, handle.spec_result_rx()),
        are_ends_of_cancel_channel(handle.spec_cancel_tx(), msg.cancel_rx),
        is_clone_of_sender(handle.spec_cancel_tx(), msg.cancel_tx),
{
}

} // verus!
