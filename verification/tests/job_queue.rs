use neptune::job_queue::handle::{
    cancel_result, job_completion, job_result, received_completion, JobCompletion, JobHandleError,
    TaskOutcome,
};
use neptune::job_queue::scheduler::{
    add_job_result, cancels_on_stop, new_job, JobQueue, JobQueueError, JobQueueMsg, JobScheduler,
};

#[derive(Clone, Copy, Debug, PartialEq, Eq, PartialOrd, Ord)]
enum DoubleJobPriority {
    Low,
    Medium,
    High,
}

type Scheduler = JobScheduler<u64, u64, String, DoubleJobPriority>;

fn add(scheduler: &mut Scheduler, job: u64, priority: DoubleJobPriority) -> usize {
    let (msg, _handle) = new_job(job, priority);
    scheduler.add_job(msg)
}

// Jobs are run in priority order, highest priority first. When multiple jobs have the same
// priority, they run in FIFO order.
#[test]
fn run_sync_jobs_by_priority() {
    let mut scheduler = Scheduler::new();
    let mut expected_len = 0;
    for i in (1..10).rev() {
        for (job, priority) in [
            (i, DoubleJobPriority::Low),
            (i * 100, DoubleJobPriority::Medium),
            (i * 1000, DoubleJobPriority::High),
        ] {
            expected_len += 1;
            assert_eq!(expected_len, add(&mut scheduler, job, priority));
        }
    }
    let mut prev = 9999;
    let mut num = 1;
    while let Some(msg) = scheduler.next_job() {
        assert_eq!(Some(num), scheduler.running());
        assert!(msg.job < prev);
        prev = msg.job;
        scheduler.finish_job(msg.result_tx, TaskOutcome::Cancelled);
        assert_eq!(None, scheduler.running());
        num += 1;
    }
    assert_eq!(28, num);
}

#[test]
fn late_jobs_of_high_priority_overtake() {
    let mut scheduler = Scheduler::new();
    add(&mut scheduler, 1, DoubleJobPriority::Low);
    add(&mut scheduler, 2, DoubleJobPriority::Medium);
    add(&mut scheduler, 3, DoubleJobPriority::Medium);
    let msg = scheduler.next_job().unwrap();
    assert_eq!(2, msg.job);
    scheduler.finish_job(msg.result_tx, TaskOutcome::Cancelled);
    add(&mut scheduler, 4, DoubleJobPriority::Medium);
    add(&mut scheduler, 5, DoubleJobPriority::High);
    add(&mut scheduler, 6, DoubleJobPriority::Low);
    let mut order = vec![];
    while let Some(msg) = scheduler.next_job() {
        order.push(msg.job);
        scheduler.finish_job(msg.result_tx, TaskOutcome::Cancelled);
    }
    assert_eq!(vec![5, 3, 4, 1, 6], order);
}

#[test]
fn stop_cancels_the_current_job_only() {
    let mut scheduler = Scheduler::new();
    assert!(!scheduler.stop());
    add(&mut scheduler, 1, DoubleJobPriority::Low);
    assert!(!scheduler.stop());
    let msg = scheduler.next_job().unwrap();
    assert!(!msg.cancel_rx.has_changed().unwrap());
    assert!(scheduler.stop());
    assert!(msg.cancel_rx.has_changed().unwrap());
    drop(msg);
    // Nobody listens any more.
    assert!(!scheduler.stop());
    assert!(cancels_on_stop(true, false));
    assert!(!cancels_on_stop(true, true));
    assert!(!cancels_on_stop(false, false));
}

#[test]
fn handles_cancel_jobs_and_receive_results() {
    let (msg, handle) = new_job::<u64, u64, String, DoubleJobPriority>(7, DoubleJobPriority::High);
    assert!(!msg.cancel_rx.has_changed().unwrap());
    assert!(handle.cancel().is_ok());
    assert!(msg.cancel_rx.has_changed().unwrap());
    assert!(!handle.cancel_tx().is_closed());
    let _ = msg.result_tx.send(JobCompletion::Finished(14));
    drop(msg.cancel_rx);
    assert!(matches!(handle.cancel(), Err(JobHandleError::CancelJobError)));
    assert!(handle.cancel_tx().is_closed());
    let received = handle.result_rx().try_recv().unwrap();
    assert!(matches!(received, JobCompletion::Finished(14)));
}

#[test]
fn completions_lead_to_results() {
    let finished = JobCompletion::<u64, String>::Finished(3);
    assert_eq!(3, job_result(Ok(finished)).unwrap());
    assert!(matches!(
        job_result(Ok(JobCompletion::<u64, String>::Cancelled)),
        Err(JobHandleError::JobCancelled)
    ));
    assert!(matches!(
        job_result(Ok(JobCompletion::<u64, String>::Panicked("oh".to_string()))),
        Err(JobHandleError::JobPanicked(e)) if e == "oh"
    ));
    assert!(matches!(
        received_completion(Ok(JobCompletion::<u64, String>::Cancelled)),
        Ok(JobCompletion::Cancelled)
    ));
    let (msg, handle) = new_job::<u64, u64, String, DoubleJobPriority>(7, DoubleJobPriority::High);
    drop(msg);
    let runtime = tokio::runtime::Builder::new_current_thread().build().unwrap();
    let received = runtime.block_on(handle.result_rx());
    assert!(matches!(job_result(received), Err(JobHandleError::JobResultError)));
    assert!(cancel_result::<String>(true).is_ok());
    assert!(matches!(cancel_result::<String>(false), Err(JobHandleError::CancelJobError)));
}

#[test]
fn tasks_end_jobs() {
    let returned = TaskOutcome::Returned(JobCompletion::<u64, String>::Finished(1));
    assert!(matches!(job_completion(returned), JobCompletion::Finished(1)));
    let panicked = TaskOutcome::<u64, String>::Panicked("oh".to_string());
    assert!(matches!(job_completion(panicked), JobCompletion::Panicked(e) if e == "oh"));
    assert!(matches!(
        job_completion(TaskOutcome::<u64, String>::Cancelled),
        JobCompletion::Cancelled
    ));
}

#[test]
fn queue_takes_jobs_until_it_is_closed() {
    let (tx, mut rx) = tokio::sync::mpsc::unbounded_channel();
    let queue = JobQueue::<u64, u64, String, DoubleJobPriority> { tx };
    let handle = queue.add_job(21, DoubleJobPriority::Medium).unwrap();
    match rx.try_recv().unwrap() {
        JobQueueMsg::AddJob(msg) => {
            assert_eq!(21, msg.job);
            assert_eq!(DoubleJobPriority::Medium, msg.priority);
            assert!(handle.cancel().is_ok());
            assert!(msg.cancel_rx.has_changed().unwrap());
            let _ = msg.result_tx.send(JobCompletion::Finished(42));
        }
        JobQueueMsg::Stop => panic!("nobody stopped the queue"),
    }
    assert!(matches!(
        handle.result_rx().try_recv().unwrap(),
        JobCompletion::Finished(42)
    ));
    drop(rx);
    match queue.add_job(22, DoubleJobPriority::Low) {
        Err(JobQueueError::AddJobError(text)) => assert_eq!("channel closed", text),
        Ok(_) => panic!("the queue is closed"),
    }
    let (_msg, handle) = new_job::<u64, u64, String, DoubleJobPriority>(7, DoubleJobPriority::High);
    let sent: Result<(), JobQueueMsg<u64, u64, String, DoubleJobPriority>> = Ok(());
    assert!(add_job_result(sent, handle).is_ok());
}

#[test]
fn every_completion_goes_to_the_handle_of_its_job() {
    let mut scheduler = Scheduler::new();
    let mut handles = vec![];
    for job in 0..3 {
        let (msg, handle) = new_job(job, DoubleJobPriority::Low);
        scheduler.add_job(msg);
        handles.push(handle.result_rx());
    }
    while let Some(msg) = scheduler.next_job() {
        let outcome = TaskOutcome::Returned(JobCompletion::Finished(msg.job * 2));
        assert!(scheduler.finish_job(msg.result_tx, outcome));
    }
    for (job, rx) in handles.iter_mut().enumerate() {
        match rx.try_recv().unwrap() {
            JobCompletion::Finished(result) => assert_eq!(job as u64 * 2, result),
            _ => panic!("the job finished"),
        }
    }
}

#[test]
fn panicking_job_ends_cleanly() {
    let mut scheduler = Scheduler::new();
    let (msg, handle) = new_job(1, DoubleJobPriority::Low);
    scheduler.add_job(msg);
    let msg = scheduler.next_job().unwrap();
    let outcome = TaskOutcome::Panicked("job panics unexpectedly".to_string());
    assert!(scheduler.finish_job(msg.result_tx, outcome));
    let runtime = tokio::runtime::Builder::new_current_thread().build().unwrap();
    let received = runtime.block_on(handle.result_rx());
    assert!(matches!(
        job_result(received),
        Err(JobHandleError::JobPanicked(e)) if e == "job panics unexpectedly"
    ));

    // Another job can be added, and is run.
    let (msg, mut handle) = {
        let (msg, handle) = new_job(2, DoubleJobPriority::Low);
        (msg, handle.result_rx())
    };
    assert_eq!(1, scheduler.add_job(msg));
    let msg = scheduler.next_job().unwrap();
    assert_eq!(2, msg.job);
    let outcome = TaskOutcome::Returned(JobCompletion::Finished(4));
    assert!(scheduler.finish_job(msg.result_tx, outcome));
    assert!(matches!(handle.try_recv().unwrap(), JobCompletion::Finished(4)));
}

#[test]
fn giving_up_the_handle_does_not_cancel_the_job() {
    let mut scheduler = Scheduler::new();
    let (msg, handle) = new_job(1, DoubleJobPriority::Low);
    scheduler.add_job(msg);
    drop(handle);
    let msg = scheduler.next_job().unwrap();
    // An error would mean that all senders are gone.
    assert!(!msg.cancel_rx.has_changed().unwrap());
    // Nobody waits for the completion.
    assert!(!scheduler.finish_job(msg.result_tx, TaskOutcome::Cancelled));
}
