//! What is logged about locks.

use vstd::prelude::*;

verus! {

/// For what a lock is acquired.
#[derive(Clone, Copy, Debug, PartialEq, Eq, Structural)]
pub enum LockAcquisition {
    Read,
    Write,
    TryLock,
}

/// For what a slow lock is acquired.
#[derive(Clone, Copy, Debug, PartialEq, Eq, Structural)]
pub enum ReadOrWrite {
    Read,
    Write,
}

/// What is known about a lock event.
#[derive(Clone, Copy, Debug, PartialEq, Eq, Structural)]
pub struct LockEventFacts {
    /// The event is that the lock was acquired.
    pub is_acquire: bool,
    /// It is known when somebody started to wait for the lock.
    pub has_try_acquire_at: bool,
    /// It is known when the lock was acquired.
    pub has_acquire_at: bool,
    /// It is known where in the code the lock was acquired.
    pub has_location: bool,
}

/// A duration that is compared with a threshold.
#[derive(Clone, Copy, Debug, PartialEq, Eq, Structural)]
pub enum SlowLockCheck {
    /// How long it took to acquire the lock.
    Acquire,
    /// How long the lock has been held.
    Held,
}

impl ReadOrWrite {
    pub open spec fn spec_name(self) -> Seq<char> {
        match self {
            ReadOrWrite::Read => "read"@,
            ReadOrWrite::Write => "write"@,
        }
    }

    /// The name that messages use.
    pub fn name(&self) -> (s: &'static str)
        ensures
            s@ == self.spec_name(),
    {
        match self {
            ReadOrWrite::Read => "read",
            ReadOrWrite::Write => "write",
        }
    }
}

/// Which slow locks are looked for, given which of them are to be logged at all.
pub fn slow_lock_kind(acquisition: LockAcquisition, log_slow_read: bool, log_slow_write: bool)
    -> (r: Option<ReadOrWrite>)
    ensures
        r == match acquisition {
            LockAcquisition::Read => if log_slow_read {
                Some(ReadOrWrite::Read)
            } else {
                None
            },
            LockAcquisition::Write => if log_slow_write {
                Some(ReadOrWrite::Write)
            } else {
                None
            },
            LockAcquisition::TryLock => None,
        },
{
    match acquisition {
        LockAcquisition::Read => if log_slow_read {
            Some(ReadOrWrite::Read)
        } else {
            None
        },
        LockAcquisition::Write => if log_slow_write {
            Some(ReadOrWrite::Write)
        } else {
            None
        },
        LockAcquisition::TryLock => None,
    }
}

/// The durations that are to be compared with a threshold: first how long it took to acquire the
/// lock, if it was just acquired; then how long it has been held. What is not known cannot be
/// compared.
pub open spec fn spec_slow_lock_checks(facts: LockEventFacts) -> Seq<SlowLockCheck> {
    (if facts.is_acquire && facts.has_try_acquire_at && facts.has_acquire_at
        && facts.has_location {
        seq![SlowLockCheck::Acquire]
    } else {
        Seq::empty()
    }) + (if facts.has_acquire_at && facts.has_location {
        seq![SlowLockCheck::Held]
    } else {
        Seq::empty()
    })
}

/// The durations that are to be compared with a threshold.
pub fn slow_lock_checks(facts: &LockEventFacts) -> (checks: Vec<SlowLockCheck>)
    ensures
        checks@ == spec_slow_lock_checks(*facts),
{
    let mut checks: Vec<SlowLockCheck> = Vec::new();
    if facts.is_acquire && facts.has_try_acquire_at && facts.has_acquire_at
        && facts.has_location {
        checks.push(SlowLockCheck::Acquire);
    }
    if facts.has_acquire_at && facts.has_location {
        checks.push(SlowLockCheck::Held);
    }
    assert(checks@ =~= spec_slow_lock_checks(*facts));
    checks
}

pub open spec fn spec_threshold_variable(kind: ReadOrWrite, check: SlowLockCheck) -> Seq<char> {
    match (kind, check) {
        (ReadOrWrite::Read, SlowLockCheck::Acquire) => "LOG_SLOW_READ_LOCK_ACQUIRE_THRESHOLD"@,
        (ReadOrWrite::Write, SlowLockCheck::Acquire) => "LOG_SLOW_WRITE_LOCK_ACQUIRE_THRESHOLD"@,
        (ReadOrWrite::Read, SlowLockCheck::Held) => "LOG_SLOW_READ_LOCK_THRESHOLD"@,
        (ReadOrWrite::Write, SlowLockCheck::Held) => "LOG_SLOW_WRITE_LOCK_THRESHOLD"@,
    }
}

/// The environment variable that holds the threshold in seconds. If it is not set, the threshold is
/// a tenth of a second.
pub fn threshold_variable(kind: ReadOrWrite, check: SlowLockCheck) -> (s: &'static str)
    ensures
        s@ == spec_threshold_variable(kind, check),
{
    match (kind, check) {
        (ReadOrWrite::Read, SlowLockCheck::Acquire) => "LOG_SLOW_READ_LOCK_ACQUIRE_THRESHOLD",
        (ReadOrWrite::Write, SlowLockCheck::Acquire) => "LOG_SLOW_WRITE_LOCK_ACQUIRE_THRESHOLD",
        (ReadOrWrite::Read, SlowLockCheck::Held) => "LOG_SLOW_READ_LOCK_THRESHOLD",
        (ReadOrWrite::Write, SlowLockCheck::Held) => "LOG_SLOW_WRITE_LOCK_THRESHOLD",
    }
}

/// The warning about a slow lock. Durations are in seconds, as text.
pub fn slow_lock_message(kind: ReadOrWrite, secs: &str, max_secs: &str, location: &str) -> (s:
    String)
    ensures
        s@ == kind.spec_name() + "-lock held for "@ + secs@ + " seconds. (exceeds max: "@
            + max_secs@ + " secs)  location: "@ + location@,
{
    kind.name().to_owned().concat("-lock held for ").concat(secs).concat(
        " seconds. (exceeds max: ",
    ).concat(max_secs).concat(" secs)  location: ").concat(location)
}

/// What is logged about a lock event. Durations are in seconds, as text.
#[derive(Debug)]
pub struct LockEventReport {
    pub event_type: String,
    pub lock_name: Option<String>,
    pub lock_type: String,
    pub acquisition: String,
    pub thread_id: String,
    pub thread_name: Option<String>,
    pub tokio_task_id: Option<String>,
    pub location: Option<String>,
    /// How long it took to acquire the lock, if both points in time are known.
    pub waited_secs: Option<String>,
    /// How long the lock was held, if the event is its release.
    pub held_secs: Option<String>,
}

/// A text, or a question mark if there is none.
pub open spec fn text_or_unknown(text: Option<String>) -> Seq<char> {
    match text {
        Some(t) => t@,
        None => "?"@,
    }
}

/// A text between two others, or nothing if there is none.
pub open spec fn text_within(start: Seq<char>, text: Option<String>, end: Seq<char>) -> Seq<char> {
    match text {
        Some(t) => start + t@ + end,
        None => Seq::empty(),
    }
}

/// The message about a lock event.
pub open spec fn spec_lock_event_message(report: LockEventReport) -> Seq<char> {
    report.event_type@ + " tokio lock `"@ + text_or_unknown(report.lock_name) + "` of type `"@
        + report.lock_type@ + "` for `"@ + report.acquisition@ + "` by\n\t|-- thread "@
        + report.thread_id@ + ", (`"@ + text_or_unknown(report.thread_name)
        + "`)\n\t|-- tokio task "@ + text_or_unknown(report.tokio_task_id) + text_within(
        "\n\t|-- acquirer: "@,
        report.location,
        Seq::empty(),
    ) + text_within("\n\t|-- waited for acquire: "@, report.waited_secs, " secs"@) + text_within(
        "\n\t|-- held: "@,
        report.held_secs,
        " secs"@,
    ) + "\n\t|--"@
}

fn append_or_unknown(s: String, text: &Option<String>) -> (r: String)
    ensures
        r@ == s@ + text_or_unknown(*text),
{
    match text {
        Some(t) => s.concat(t.as_str()),
        None => s.concat("?"),
    }
}

fn append_within(s: String, start: &str, text: &Option<String>, end: &str) -> (r: String)
    ensures
        r@ == s@ + text_within(start@, *text, end@),
{
    match text {
        Some(t) => {
            let r = s.concat(start).concat(t.as_str()).concat(end);
            assert(r@ =~= s@ + text_within(start@, *text, end@));
            r
        },
        None => {
            assert(s@ =~= s@ + text_within(start@, *text, end@));
            s
        },
    }
}

/// The message about a lock event.
pub fn lock_event_message(report: &LockEventReport) -> (s: String)
    ensures
        s@ == spec_lock_event_message(*report),
{
    let s = report.event_type.clone().concat(" tokio lock `");
    let s = append_or_unknown(s, &report.lock_name).concat("` of type `").concat(
        report.lock_type.as_str(),
    ).concat("` for `").concat(report.acquisition.as_str()).concat("` by\n\t|-- thread ").concat(
        report.thread_id.as_str(),
    ).concat(", (`");
    let s = append_or_unknown(s, &report.thread_name).concat("`)\n\t|-- tokio task ");
    let s = append_or_unknown(s, &report.tokio_task_id);
    let s = append_within(s, "\n\t|-- acquirer: ", &report.location, "");
    let s = append_within(s, "\n\t|-- waited for acquire: ", &report.waited_secs, " secs");
    let s = append_within(s, "\n\t|-- held: ", &report.held_secs, " secs");
    proof {
        reveal_strlit("");
        assert(""@ =~= Seq::<char>::empty());
    }
    s.concat("\n\t|--")
}

} // verus!
