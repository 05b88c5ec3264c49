//! Points in time as clocks show them.

use vstd::prelude::*;

verus! {

/// A point in time, and what a local clock is ahead of UTC then.
#[derive(Clone, Copy, Debug, PartialEq, Eq, Structural)]
pub struct LocalTime {
    /// Milliseconds since 1970 in UTC.
    pub utc_millis: i64,
    /// What the local clock is ahead, in seconds.
    pub offset_secs: i32,
}

/// The first millisecond of the year 262144 BCE.
pub const MIN_MILLIS: i64 = -8_334_601_228_800_000;

/// The last millisecond of the year 262142.
pub const MAX_MILLIS: i64 = 8_210_266_876_799_999;

/// Whether a number of milliseconds since 1970 in UTC is a point in time in the years that
/// `chrono` knows.
pub open spec fn is_representable(millis: i64) -> bool {
    MIN_MILLIS <= millis <= MAX_MILLIS
}

/// Calls `from_timestamp_millis` of `chrono`'s `DateTime`, which gives the point in time that many
/// milliseconds after 1970 in UTC, if it lies between the smallest and the largest date; and then
/// converts that to local time, which does not change the point in time. The offset depends on the
/// machine's time zone, and nothing is claimed of it.
#[verifier::external_body]
fn local_time_at(millis: i64) -> (r: Option<LocalTime>)
    ensures
        match r {
            Some(t) => is_representable(millis) && t.utc_millis == millis,
            None => !is_representable(millis),
        },
{
    let utc = chrono::DateTime::from_timestamp_millis(millis)?;
    let local: chrono::DateTime<chrono::Local> = chrono::DateTime::from(utc);
    Some(
        LocalTime {
            utc_millis: local.timestamp_millis(),
            offset_secs: local.offset().local_minus_utc(),
        },
    )
}

/// The conversion to local time, made on this machine, came to this.
pub closed spec fn is_local_time_outcome(millis: i64, r: Option<LocalTime>) -> bool {
    call_ensures(local_time_at, (millis,), r)
}

/// Converts a number of milliseconds since 1970 in UTC to local time, if it can be represented.
pub fn utc_timestamp_to_localtime(timestamp: i64) -> (r: Option<LocalTime>)
    ensures
        match r {
            Some(t) => is_representable(timestamp) && t.utc_millis == timestamp,
            None => !is_representable(timestamp),
        },
        is_local_time_outcome(timestamp, r),
{
    local_time_at(timestamp)
}

} // verus!
