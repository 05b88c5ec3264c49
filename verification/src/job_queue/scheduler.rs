//! Which job is run next.

use std::collections::VecDeque;
use vstd::prelude::*;

use crate::job_queue::channels::are_ends_of_cancel_channel;
use crate::job_queue::channels::are_ends_of_result_channel;
use crate::job_queue::channels::cancel_channel;
use crate::job_queue::channels::cancel_channel_is_closed;
use crate::job_queue::channels::clone_cancel_sender;
use crate::job_queue::channels::is_cancel_outcome;
use crate::job_queue::channels::is_clone_of_sender;
use crate::job_queue::channels::is_closed_outcome;
use crate::job_queue::channels::is_completion_outcome;
use crate::job_queue::channels::is_send_outcome;
use crate::job_queue::channels::result_channel;
use crate::job_queue::channels::send_cancel;
use crate::job_queue::channels::send_completion;
use crate::job_queue::channels::send_error_text;
use crate::job_queue::channels::send_msg;
use crate::job_queue::handle::completion_of;
use crate::job_queue::handle::job_completion;
use crate::job_queue::handle::result_of;
use crate::job_queue::handle::JobCompletion;
use crate::job_queue::handle::JobHandle;
use crate::job_queue::handle::JobHandleError;
use crate::job_queue::handle::TaskOutcome;
use crate::job_queue::priority::higher;
use crate::job_queue::priority::is_higher;
use crate::job_queue::priority::lemma_order;
use crate::job_queue::priority::same_rank;
use crate::job_queue::priority::totally_ordered;

verus! {

/// A job that is to be queued, and the channels through which it is cancelled and its completion
/// is told.
#[verifier::reject_recursive_types(R)]
#[verifier::reject_recursive_types(E)]
pub struct AddJobMsg<J, R, E, P> {
    pub job: J,
    pub result_tx: tokio::sync::oneshot::Sender<JobCompletion<R, E>>,
    pub cancel_tx: tokio::sync::watch::Sender<()>,
    pub cancel_rx: tokio::sync::watch::Receiver<()>,
    pub priority: P,
}

/// What a job queue can be told.
#[verifier::reject_recursive_types(R)]
#[verifier::reject_recursive_types(E)]
pub enum JobQueueMsg<J, R, E, P> {
    AddJob(AddJobMsg<J, R, E, P>),
    Stop,
}

/// Why a job could not be added.
#[derive(Debug)]
pub enum JobQueueError {
    AddJobError(String),
}

/// The job that is being run.
pub struct CurrentJob {
    pub job_num: usize,
    pub cancel_tx: tokio::sync::watch::Sender<()>,
}

/// The jobs that wait, and the one that is being run.
#[verifier::reject_recursive_types(R)]
#[verifier::reject_recursive_types(E)]
pub struct JobScheduler<J, R, E, P> {
    pub jobs: VecDeque<AddJobMsg<J, R, E, P>>,
    pub current_job: Option<CurrentJob>,
    /// The number of the next job, or of the one that is being run.
    pub job_num: usize,
}

/// The numbers are those from zero up to their count, each of them once.
pub open spec fn is_permutation(perm: Seq<int>) -> bool {
    &&& forall|i: int| 0 <= i < perm.len() ==> 0 <= #[trigger] perm[i] < perm.len()
    &&& forall|i: int, j: int|
        0 <= i < j < perm.len() ==> #[trigger] perm[i] != #[trigger] perm[j]
}

/// The second list holds the jobs of the first one, the highest priority first, and jobs of the
/// same priority in their old order. The permutation tells where each one was.
pub open spec fn sorts_by<J, R, E, P: Ord>(
    before: Seq<AddJobMsg<J, R, E, P>>,
    after: Seq<AddJobMsg<J, R, E, P>>,
    perm: Seq<int>,
) -> bool {
    &&& before.len() == after.len() == perm.len()
    &&& is_permutation(perm)
    &&& forall|i: int| 0 <= i < after.len() ==> #[trigger] after[i] == before[perm[i]]
    &&& forall|i: int, j: int|
        0 <= i < j < after.len() ==> {
            ||| higher(#[trigger] after[i].priority, #[trigger] after[j].priority)
            ||| same_rank(after[i].priority, after[j].priority) && perm[i] < perm[j]
        }
}

/// The second list holds the jobs of the first one, the highest priority first, and jobs of the
/// same priority in their old order.
pub open spec fn stably_sorted<J, R, E, P: Ord>(
    before: Seq<AddJobMsg<J, R, E, P>>,
    after: Seq<AddJobMsg<J, R, E, P>>,
) -> bool {
    exists|perm: Seq<int>| sorts_by(before, after, perm)
}

/// Puts the highest priority first, and keeps the order of jobs of the same priority.
fn sort_by_priority<J, R, E, P: Ord>(jobs: VecDeque<AddJobMsg<J, R, E, P>>) -> (sorted: VecDeque<
    AddJobMsg<J, R, E, P>,
>)
    requires
        totally_ordered::<P>(),
    ensures
        stably_sorted(jobs@, sorted@),
{
    let ghost before = jobs@;
    let mut rest = jobs;
    let mut sorted: VecDeque<AddJobMsg<J, R, E, P>> = VecDeque::new();
    let ghost mut perm: Seq<int> = Seq::empty();
    assert(sorts_by(before.take(0), sorted@, perm));
    while rest.len() > 0
        invariant
            totally_ordered::<P>(),
            sorted@.len() + rest@.len() == before.len(),
            rest@ == before.skip(sorted@.len() as int),
            sorts_by(before.take(sorted@.len() as int), sorted@, perm),
        decreases rest@.len(),
    {
        let ghost count = sorted@.len() as int;
        let ghost old_sorted = sorted@;
        match rest.pop_front() {
            Some(msg) => {
                assert(msg == before[count]);
                let mut at: usize = sorted.len();
                while at > 0 && is_higher(&msg.priority, &sorted[at - 1].priority)
                    invariant
                        totally_ordered::<P>(),
                        at <= sorted@.len() == count,
                        sorted@ == old_sorted,
                        forall|i: int|
                            at <= i < count ==> higher(
                                msg.priority,
                                (#[trigger] sorted@[i]).priority,
                            ),
                    decreases at,
                {
                    at = at - 1;
                }
                proof {
                    let k = at as int;
                    let new_perm = perm.insert(k, count);
                    let new_sorted = old_sorted.insert(k, msg);
                    lemma_insert_keeps_sorted(before, old_sorted, perm, k);
                    perm = new_perm;
                }
                sorted.insert(at, msg);
                assert(rest@ =~= before.skip(count + 1));
            },
            None => {},
        }
    }
    assert(before.take(sorted@.len() as int) =~= before);
    sorted
}

/// The next job can be inserted before all jobs of lower priority.
proof fn lemma_insert_keeps_sorted<J, R, E, P: Ord>(
    before: Seq<AddJobMsg<J, R, E, P>>,
    sorted: Seq<AddJobMsg<J, R, E, P>>,
    perm: Seq<int>,
    k: int,
)
    requires
        totally_ordered::<P>(),
        sorted.len() < before.len(),
        sorts_by(before.take(sorted.len() as int), sorted, perm),
        0 <= k <= sorted.len(),
        forall|i: int|
            k <= i < sorted.len() ==> higher(
                before[sorted.len() as int].priority,
                (#[trigger] sorted[i]).priority,
            ),
        k > 0 ==> !higher(before[sorted.len() as int].priority, sorted[k - 1].priority),
    ensures
        sorts_by(
            before.take(sorted.len() as int + 1),
            sorted.insert(k, before[sorted.len() as int]),
            perm.insert(k, sorted.len() as int),
        ),
{
    let n = sorted.len() as int;
    let msg = before[n];
    let after = sorted.insert(k, msg);
    let new_perm = perm.insert(k, n);
    let prefix = before.take(n);
    let grown = before.take(n + 1);
    assert forall|i: int| 0 <= i < after.len() implies #[trigger] after[i]
        == grown[new_perm[i]] by {
        if i < k {
            assert(after[i] == sorted[i] && new_perm[i] == perm[i]);
            assert(sorted[i] == prefix[perm[i]]);
        } else if i > k {
            assert(after[i] == sorted[i - 1] && new_perm[i] == perm[i - 1]);
            assert(sorted[i - 1] == prefix[perm[i - 1]]);
        }
    }
    assert forall|i: int| 0 <= i < new_perm.len() implies 0 <= #[trigger] new_perm[i]
        < new_perm.len() by {
        if i < k {
            assert(new_perm[i] == perm[i]);
        } else if i > k {
            assert(new_perm[i] == perm[i - 1]);
        }
    }
    assert forall|i: int, j: int| 0 <= i < j < new_perm.len() implies #[trigger] new_perm[i]
        != #[trigger] new_perm[j] by {
        let a = if i < k { i } else { i - 1 };
        let b = if j < k { j } else { j - 1 };
        if i != k {
            assert(new_perm[i] == perm[a]);
        }
        if j != k {
            assert(new_perm[j] == perm[b]);
        }
    }
    assert forall|i: int, j: int| 0 <= i < j < after.len() implies {
        ||| higher(#[trigger] after[i].priority, #[trigger] after[j].priority)
        ||| same_rank(after[i].priority, after[j].priority) && new_perm[i] < new_perm[j]
    } by {
        if j < k {
            assert(after[i] == sorted[i] && after[j] == sorted[j]);
            assert(higher(sorted[i].priority, sorted[j].priority) || same_rank(
                sorted[i].priority,
                sorted[j].priority,
            ) && perm[i] < perm[j]);
        } else if i > k {
            assert(after[i] == sorted[i - 1] && after[j] == sorted[j - 1]);
            assert(higher(sorted[i - 1].priority, sorted[j - 1].priority) || same_rank(
                sorted[i - 1].priority,
                sorted[j - 1].priority,
            ) && perm[i - 1] < perm[j - 1]);
        } else if i == k {
            assert(after[i] == msg && after[j] == sorted[j - 1]);
            assert(higher(msg.priority, sorted[j - 1].priority));
        } else if j == k {
            assert(after[i] == sorted[i] && after[j] == msg);
            let last = sorted[k - 1].priority;
            lemma_order(last, msg.priority, msg.priority);
            assert(perm[i] < n);
            if i < k - 1 {
                assert(higher(sorted[i].priority, sorted[k - 1].priority) || same_rank(
                    sorted[i].priority,
                    sorted[k - 1].priority,
                ));
                lemma_order(sorted[i].priority, last, msg.priority);
                lemma_order(msg.priority, last, sorted[i].priority);
                lemma_order(sorted[i].priority, msg.priority, last);
                lemma_order(last, sorted[i].priority, msg.priority);
            }
        } else {
            assert(after[i] == sorted[i] && after[j] == sorted[j - 1]);
            assert(higher(sorted[i].priority, sorted[j - 1].priority) || same_rank(
                sorted[i].priority,
                sorted[j - 1].priority,
            ) && perm[i] < perm[j - 1]);
        }
    }
}

/// Whether a stop leads to the cancellation of a job: if one is being run, and its channel is not
/// closed.
pub fn cancels_on_stop(running: bool, channel_is_closed: bool) -> (r: bool)
    ensures
        r == (running && !channel_is_closed),
{
    running && !channel_is_closed
}

impl<J, R, E, P> JobScheduler<J, R, E, P> {
    /// A scheduler without jobs. The first job will have number one.
    pub fn new() -> (s: JobScheduler<J, R, E, P>)
        ensures
            s.jobs@.len() == 0,
            s.current_job is None,
            s.job_num == 1,
    {
        JobScheduler { jobs: VecDeque::new(), current_job: None, job_num: 1 }
    }

    /// Adds a job to the queue, and returns how many wait now.
    pub fn add_job(&mut self, msg: AddJobMsg<J, R, E, P>) -> (num_jobs: usize)
        ensures
            final(self).jobs@ == old(self).jobs@.push(msg),
            final(self).current_job == old(self).current_job,
            final(self).job_num == old(self).job_num,
            num_jobs == final(self).jobs@.len(),
    {
        self.jobs.push_back(msg);
        self.jobs.len()
    }

    /// The number of the job that is being run, if there is one.
    pub fn running(&self) -> (r: Option<usize>)
        ensures
            r == match self.current_job {
                Some(current) => Some(current.job_num),
                None => None,
            },
    {
        match &self.current_job {
            Some(current) => Some(current.job_num),
            None => None,
        }
    }

    /// The job that was being run has ended, and nothing else has changed.
    pub open spec fn is_after_job(self, before: JobScheduler<J, R, E, P>) -> bool {
        &&& self.jobs == before.jobs
        &&& self.current_job is None
        &&& self.job_num == before.job_num + 1
    }

    /// Records that the job that was being run has ended, and sends its completion to the other
    /// end of the given channel, which is the one that came with the job. The result is whether
    /// that end still was there.
    pub fn finish_job(
        &mut self,
        result_tx: tokio::sync::oneshot::Sender<JobCompletion<R, E>>,
        outcome: TaskOutcome<R, E>,
    ) -> (delivered: bool)
        requires
            old(self).job_num < usize::MAX,
        ensures
            final(self).is_after_job(*old(self)),
            exists|sent: Result<(), JobCompletion<R, E>>| #[trigger]
                is_completion_outcome(result_tx, completion_of(outcome), sent) && delivered == (
                sent is Ok),
    {
        self.job_num = self.job_num + 1;
        self.current_job = None;
        let completion = job_completion(outcome);
        let sent = send_completion(result_tx, completion);
        assert(is_completion_outcome(result_tx, completion, sent));
        match sent {
            Ok(()) => true,
            Err(_) => false,
        }
    }

    /// Tells the job that is being run, if there is one and its channel is not closed, to cancel.
    /// The result is whether it was told.
    pub fn stop(&self) -> (notified: bool)
        ensures
            match self.current_job {
                Some(current) => {
                    ||| is_closed_outcome(current.cancel_tx, true) && !notified
                    ||| is_closed_outcome(current.cancel_tx, false) && is_cancel_outcome(
                        current.cancel_tx,
                        notified,
                    )
                },
                None => !notified,
            },
    {
        match &self.current_job {
            Some(current) => if cancels_on_stop(
                true,
                cancel_channel_is_closed(&current.cancel_tx),
            ) {
                send_cancel(&current.cancel_tx)
            } else {
                false
            },
            None => false,
        }
    }
}

impl<J, R, E, P: Ord> JobScheduler<J, R, E, P> {
    /// Takes out the job that is to be run next, if there is one, and makes it the current one. It
    /// is the one with the highest priority; among several of those, it is the one that was added
    /// first.
    ///
    /// Only one job is run at a time, so no other one may be being run.
    pub fn next_job(&mut self) -> (r: Option<AddJobMsg<J, R, E, P>>)
        requires
            totally_ordered::<P>(),
            old(self).current_job is None,
        ensures
            match r {
                Some(msg) => {
                    &&& old(self).jobs@.len() > 0
                    &&& stably_sorted(old(self).jobs@, seq![msg] + final(self).jobs@)
                    &&& final(self).current_job is Some
                    &&& final(self).current_job->0.job_num == old(self).job_num
                    &&& is_clone_of_sender(
                        msg.cancel_tx,
                        final(self).current_job->0.cancel_tx,
                    )
                },
                None => {
                    &&& old(self).jobs@.len() == 0
                    &&& final(self).jobs@.len() == 0
                    &&& final(self).current_job is None
                },
            },
            final(self).job_num == old(self).job_num,
    {
        if self.jobs.len() == 0 {
            return None;
        }
        let mut jobs: VecDeque<AddJobMsg<J, R, E, P>> = VecDeque::new();
        jobs.append(&mut self.jobs);
        assert(jobs@ =~= old(self).jobs@);
        let mut sorted = sort_by_priority(jobs);
        let ghost whole = sorted@;
        let next = sorted.pop_front();
        self.jobs = sorted;
        match next {
            Some(msg) => {
                assert(seq![msg] + self.jobs@ =~= whole);
                self.current_job = Some(
                    CurrentJob {
                        job_num: self.job_num,
                        cancel_tx: clone_cancel_sender(&msg.cancel_tx),
                    },
                );
                Some(msg)
            },
            None => None,
        }
    }
}

/// The job that is run next has the highest priority, and among those it was queued first.
pub proof fn lemma_next_job_is_first_of_highest<J, R, E, P: Ord>(
    before: Seq<AddJobMsg<J, R, E, P>>,
    next: AddJobMsg<J, R, E, P>,
    rest: Seq<AddJobMsg<J, R, E, P>>,
)
    requires
        stably_sorted(before, seq![next] + rest),
    ensures
        exists|k: int|
            0 <= k < before.len() && #[trigger] before[k] == next && forall|i: int|
                0 <= i < before.len() && i != k ==> {
                    ||| higher(next.priority, (#[trigger] before[i]).priority)
                    ||| same_rank(next.priority, before[i].priority) && k < i
                },
{
    let after = seq![next] + rest;
    let perm = choose|perm: Seq<int>| sorts_by(before, after, perm);
    let k = perm[0];
    assert(after[0] == next && after[0] == before[k]);
    assert forall|i: int| 0 <= i < before.len() && i != k implies {
        ||| higher(next.priority, (#[trigger] before[i]).priority)
        ||| same_rank(next.priority, before[i].priority) && k < i
    } by {
        lemma_permutation_hits(perm, i);
        let m = choose|m: int| 0 <= m < perm.len() && perm[m] == i;
        assert(after[m] == before[perm[m]]);
        assert(higher(after[0].priority, after[m].priority) || same_rank(
            after[0].priority,
            after[m].priority,
        ) && perm[0] < perm[m]);
    }
    assert(before[k] == next);
}

/// A permutation leaves no number out.
proof fn lemma_permutation_hits(perm: Seq<int>, i: int)
    requires
        is_permutation(perm),
        0 <= i < perm.len(),
    ensures
        exists|m: int| 0 <= m < perm.len() && perm[m] == i,
{
    let n = perm.len() as int;
    if forall|m: int| 0 <= m < n ==> perm[m] != i {
        assert(perm.no_duplicates());
        perm.unique_seq_to_set();
        let numbers = vstd::set_lib::set_int_range(0, n);
        vstd::set_lib::lemma_int_range(0, n);
        let others = numbers.remove(i);
        assert(perm.to_set().subset_of(others)) by {
            assert forall|x: int| perm.to_set().contains(x) implies others.contains(x) by {
                let m = choose|m: int| 0 <= m < n && perm[m] == x;
                assert(perm[m] == x);
            }
        }
        vstd::set_lib::lemma_len_subset(perm.to_set(), others);
        assert(false);
    }
}

/// Two permutations that sort the same jobs agree up to any index.
proof fn lemma_permutations_agree<J, R, E, P: Ord>(
    before: Seq<AddJobMsg<J, R, E, P>>,
    a: Seq<AddJobMsg<J, R, E, P>>,
    b: Seq<AddJobMsg<J, R, E, P>>,
    pa: Seq<int>,
    pb: Seq<int>,
    count: int,
)
    requires
        totally_ordered::<P>(),
        sorts_by(before, a, pa),
        sorts_by(before, b, pb),
        0 <= count <= before.len(),
    ensures
        forall|i: int| 0 <= i < count ==> #[trigger] pa[i] == pb[i],
    decreases count,
{
    if count > 0 {
        let i = count - 1;
        lemma_permutations_agree(before, a, b, pa, pb, i);
        if pa[i] != pb[i] {
            let x = before[pa[i]].priority;
            let y = before[pb[i]].priority;
            lemma_permutation_hits(pb, pa[i]);
            let m = choose|m: int| 0 <= m < pb.len() && pb[m] == pa[i];
            if m < i {
                assert(pa[m] == pb[m]);
            }
            assert(b[i] == before[pb[i]] && b[m] == before[pb[m]]);
            assert(higher(b[i].priority, b[m].priority) || same_rank(
                b[i].priority,
                b[m].priority,
            ) && pb[i] < pb[m]);
            lemma_permutation_hits(pa, pb[i]);
            let n = choose|n: int| 0 <= n < pa.len() && pa[n] == pb[i];
            if n < i {
                assert(pa[n] == pb[n]);
            }
            assert(a[i] == before[pa[i]] && a[n] == before[pa[n]]);
            assert(higher(a[i].priority, a[n].priority) || same_rank(
                a[i].priority,
                a[n].priority,
            ) && pa[i] < pa[n]);
            lemma_order(x, y, x);
            lemma_order(y, x, y);
        }
    }
}

/// There is only one way to put jobs in order by priority without changing the order within a
/// priority. So which job is run next, and in what order the others wait, is never left open.
pub proof fn lemma_order_of_jobs_is_unique<J, R, E, P: Ord>(
    before: Seq<AddJobMsg<J, R, E, P>>,
    a: Seq<AddJobMsg<J, R, E, P>>,
    b: Seq<AddJobMsg<J, R, E, P>>,
)
    requires
        totally_ordered::<P>(),
        stably_sorted(before, a),
        stably_sorted(before, b),
    ensures
        a == b,
{
    let pa = choose|perm: Seq<int>| sorts_by(before, a, perm);
    let pb = choose|perm: Seq<int>| sorts_by(before, b, perm);
    lemma_permutations_agree(before, a, b, pa, pb, before.len() as int);
    assert forall|i: int| 0 <= i < a.len() implies #[trigger] a[i] == b[i] by {
        assert(pa[i] == pb[i]);
        assert(a[i] == before[pa[i]] && b[i] == before[pb[i]]);
    }
    assert(a =~= b);
}

/// Jobs of the same priority are queued in the order of their tickets.
pub open spec fn in_ticket_order<J, R, E, P: Ord>(
    jobs: Seq<AddJobMsg<J, R, E, P>>,
    ticket: spec_fn(AddJobMsg<J, R, E, P>) -> int,
) -> bool {
    forall|i: int, j: int|
        0 <= i < j < jobs.len() && same_rank(
            (#[trigger] jobs[i]).priority,
            (#[trigger] jobs[j]).priority,
        ) ==> ticket(jobs[i]) < ticket(jobs[j])
}

/// If every job that is added gets a higher ticket than those that wait, then jobs of the same
/// priority stay in the order of their tickets.
pub proof fn lemma_adding_keeps_ticket_order<J, R, E, P: Ord>(
    jobs: Seq<AddJobMsg<J, R, E, P>>,
    msg: AddJobMsg<J, R, E, P>,
    ticket: spec_fn(AddJobMsg<J, R, E, P>) -> int,
)
    requires
        in_ticket_order(jobs, ticket),
        forall|i: int| 0 <= i < jobs.len() ==> ticket(#[trigger] jobs[i]) < ticket(msg),
    ensures
        in_ticket_order(jobs.push(msg), ticket),
{
    let more = jobs.push(msg);
    assert forall|i: int, j: int|
        0 <= i < j < more.len() && same_rank(
            (#[trigger] more[i]).priority,
            (#[trigger] more[j]).priority,
        ) implies ticket(more[i]) < ticket(more[j]) by {
        assert(more[i] == jobs[i]);
        if j < jobs.len() {
            assert(more[j] == jobs[j]);
        }
    }
}

/// Jobs are run by priority, and first come, first served within a priority: whatever is run next
/// has a higher priority than everything that still waits, or the same priority and a lower
/// ticket; and what still waits stays in the order of the tickets.
pub proof fn lemma_jobs_run_by_priority_then_ticket<J, R, E, P: Ord>(
    before: Seq<AddJobMsg<J, R, E, P>>,
    next: AddJobMsg<J, R, E, P>,
    rest: Seq<AddJobMsg<J, R, E, P>>,
    ticket: spec_fn(AddJobMsg<J, R, E, P>) -> int,
)
    requires
        in_ticket_order(before, ticket),
        stably_sorted(before, seq![next] + rest),
    ensures
        in_ticket_order(rest, ticket),
        forall|i: int|
            0 <= i < rest.len() ==> {
                ||| higher(next.priority, (#[trigger] rest[i]).priority)
                ||| same_rank(next.priority, rest[i].priority) && ticket(next) < ticket(rest[i])
            },
        rest.len() == before.len() - 1,
{
    let after = seq![next] + rest;
    let perm = choose|perm: Seq<int>| sorts_by(before, after, perm);
    assert forall|i: int, j: int| 0 <= i < j < after.len() implies {
        ||| higher((#[trigger] after[i]).priority, (#[trigger] after[j]).priority)
        ||| same_rank(after[i].priority, after[j].priority) && ticket(after[i]) < ticket(after[j])
    } by {
        assert(after[i] == before[perm[i]] && after[j] == before[perm[j]]);
        assert(higher(after[i].priority, after[j].priority) || same_rank(
            after[i].priority,
            after[j].priority,
        ) && perm[i] < perm[j]);
    }
    assert forall|i: int, j: int|
        0 <= i < j < rest.len() && same_rank(
            (#[trigger] rest[i]).priority,
            (#[trigger] rest[j]).priority,
        ) implies ticket(rest[i]) < ticket(rest[j]) by {
        assert(rest[i] == after[i + 1] && rest[j] == after[j + 1]);
    }
    assert forall|i: int| 0 <= i < rest.len() implies {
        ||| higher(next.priority, (#[trigger] rest[i]).priority)
        ||| same_rank(next.priority, rest[i].priority) && ticket(next) < ticket(rest[i])
    } by {
        assert(rest[i] == after[i + 1] && after[0] == next);
    }
}

/// The handle belongs to the job of the message: the completion of the job is sent to the handle,
/// the handle tells the job to cancel, and the message keeps a sender of its own into the cancel
/// channel, so that this stays open when the handle is given up.
pub open spec fn is_handle_of<J, R, E, P>(
    handle: JobHandle<R, E>,
    msg: AddJobMsg<J, R, E, P>,
) -> bool {
    &&& are_ends_of_result_channel(msg.result_tx, handle.spec_result_rx())
    &&& are_ends_of_cancel_channel(handle.spec_cancel_tx(), msg.cancel_rx)
    &&& is_clone_of_sender(handle.spec_cancel_tx(), msg.cancel_tx)
}

/// A job that panics ends cleanly: what is sent to its own handle is that it panicked, and with
/// what; this makes the result of the job that error. The other jobs wait as they did, and the next
/// one can be run.
pub proof fn lemma_panicking_job_ends_cleanly<J, R, E, P>(
    handle: JobHandle<R, E>,
    msg: AddJobMsg<J, R, E, P>,
    before: JobScheduler<J, R, E, P>,
    after: JobScheduler<J, R, E, P>,
    e: E,
)
    requires
        is_handle_of(handle, msg),
        after.is_after_job(before),
    ensures
        completion_of(TaskOutcome::<R, E>::Panicked(e)) == JobCompletion::<R, E>::Panicked(e),
        are_ends_of_result_channel(msg.result_tx, handle.spec_result_rx()),
        result_of(Ok(completion_of(TaskOutcome::<R, E>::Panicked(e)))) == Err::<
            R,
            JobHandleError<E>,
        >(JobHandleError::JobPanicked(e)),
        after.jobs == before.jobs,
        after.current_job is None,
{
}

/// The message that queues a job, and the handle for the job.
pub fn new_job<J, R, E, P>(job: J, priority: P) -> (r: (
    AddJobMsg<J, R, E, P>,
    JobHandle<R, E>,
))
    ensures
        r.0.job == job,
        r.0.priority == priority,
        is_handle_of(r.1, r.0),
{
    let (result_tx, result_rx) = result_channel::<R, E>();
    let (cancel_tx, cancel_rx) = cancel_channel();
    let msg = AddJobMsg {
        job,
        result_tx,
        cancel_tx: clone_cancel_sender(&cancel_tx),
        cancel_rx,
        priority,
    };
    (msg, JobHandle::new(result_rx, cancel_tx))
}

/// What [`JobQueue::add_job`] returns, given whether the message was sent; if it was not, it has
/// come back.
pub fn add_job_result<J, R, E, P>(
    sent: Result<(), JobQueueMsg<J, R, E, P>>,
    handle: JobHandle<R, E>,
) -> (r: Result<JobHandle<R, E>, JobQueueError>)
    ensures
        match sent {
            Ok(()) => r == Ok::<JobHandle<R, E>, JobQueueError>(handle),
            Err(_) => r is Err && r->Err_0->AddJobError_0@ == "channel closed"@,
        },
{
    match sent {
        Ok(()) => Ok(handle),
        Err(msg) => Err(JobQueueError::AddJobError(send_error_text(msg))),
    }
}

/// A job queue, as those see it who add jobs.
#[verifier::reject_recursive_types(J)]
#[verifier::reject_recursive_types(R)]
#[verifier::reject_recursive_types(E)]
#[verifier::reject_recursive_types(P)]
pub struct JobQueue<J, R, E, P> {
    pub tx: tokio::sync::mpsc::UnboundedSender<JobQueueMsg<J, R, E, P>>,
}

impl<J, R, E, P> JobQueue<J, R, E, P> {
    /// Adds a job to the queue and returns immediately.
    ///
    /// The result of the job can be obtained through the handle, and the job can be cancelled by
    /// it. The queue is sent the job with its priority. This fails exactly when the queue does not
    /// take that message, because it does not take messages any more.
    pub fn add_job(&self, job: J, priority: P) -> (r: Result<JobHandle<R, E>, JobQueueError>)
        ensures
            exists|msg: AddJobMsg<J, R, E, P>, sent: Result<(), JobQueueMsg<J, R, E, P>>|
                {
                    &&& #[trigger] is_send_outcome(self.tx, JobQueueMsg::AddJob(msg), sent)
                    &&& msg.job == job
                    &&& msg.priority == priority
                    &&& r is Ok <==> sent is Ok
                    &&& r is Ok ==> is_handle_of(r->Ok_0, msg)
                },
            match r {
                Ok(_) => true,
                Err(e) => e->AddJobError_0@ == "channel closed"@,
            },
    {
        let (msg, handle) = new_job::<J, R, E, P>(job, priority);
        let sent = send_msg(&self.tx, JobQueueMsg::AddJob(msg));
        assert(is_send_outcome(self.tx, JobQueueMsg::AddJob(msg), sent));
        add_job_result(sent, handle)
    }
}

} // verus!
