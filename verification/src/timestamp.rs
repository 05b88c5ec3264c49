//! Points in time, and durations.

use vstd::prelude::*;

use crate::field::field_add;
use crate::field::field_sub;
use crate::field::P;

verus! {

/// A point in time, in milliseconds since the Unix epoch, or a duration in milliseconds.
///
/// The number of milliseconds is a field element, so arithmetic is modulo [`P`].
#[derive(Clone, Copy, Debug, PartialEq, Eq, Structural)]
pub struct Timestamp {
    pub millis: u64,
}

pub const MILLIS_PER_SECOND: u64 = 1_000;

pub const MILLIS_PER_MINUTE: u64 = 60_000;

pub const MILLIS_PER_HOUR: u64 = 3_600_000;

pub const MILLIS_PER_DAY: u64 = 86_400_000;

pub const MILLIS_PER_MONTH: u64 = 2_628_000_000;

pub const MILLIS_PER_YEAR: u64 = 31_536_000_000;

impl Timestamp {
    /// The point `other` after this one.
    pub open spec fn spec_plus(self, other: Timestamp) -> Timestamp {
        Timestamp { millis: ((self.millis + other.millis) % (P as int)) as u64 }
    }

    /// The duration from `other` to this point.
    pub open spec fn spec_minus(self, other: Timestamp) -> Timestamp {
        Timestamp { millis: ((self.millis - other.millis) % (P as int)) as u64 }
    }

    pub fn from_millis(num: u64) -> (t: Timestamp)
        ensures
            t.millis == num,
    {
        Timestamp { millis: num }
    }

    pub fn seconds(num: u64) -> (t: Timestamp)
        requires
            num * MILLIS_PER_SECOND < P,
        ensures
            t.millis == num * MILLIS_PER_SECOND,
    {
        Timestamp { millis: num * MILLIS_PER_SECOND }
    }

    pub fn minutes(num: u64) -> (t: Timestamp)
        requires
            num * MILLIS_PER_MINUTE < P,
        ensures
            t.millis == num * MILLIS_PER_MINUTE,
    {
        Timestamp { millis: num * MILLIS_PER_MINUTE }
    }

    pub fn hours(num: u64) -> (t: Timestamp)
        requires
            num * MILLIS_PER_HOUR < P,
        ensures
            t.millis == num * MILLIS_PER_HOUR,
    {
        Timestamp { millis: num * MILLIS_PER_HOUR }
    }

    pub fn days(num: u64) -> (t: Timestamp)
        requires
            num * MILLIS_PER_DAY < P,
        ensures
            t.millis == num * MILLIS_PER_DAY,
    {
        Timestamp { millis: num * MILLIS_PER_DAY }
    }

    /// A month is the twelfth part of a year.
    pub fn months(num: u64) -> (t: Timestamp)
        requires
            num * MILLIS_PER_MONTH < P,
        ensures
            t.millis == num * MILLIS_PER_MONTH,
    {
        Timestamp { millis: num * MILLIS_PER_MONTH }
    }

    /// A year has 365 days.
    pub fn years(num: u64) -> (t: Timestamp)
        requires
            num * MILLIS_PER_YEAR < P,
        ensures
            t.millis == num * MILLIS_PER_YEAR,
    {
        Timestamp { millis: num * MILLIS_PER_YEAR }
    }

    /// The point `other` after this one.
    pub fn plus(&self, other: Timestamp) -> (t: Timestamp)
        ensures
            t == self.spec_plus(other),
    {
        Timestamp { millis: field_add(self.millis, other.millis) }
    }

    /// The duration from `other` to this point.
    pub fn minus(&self, other: Timestamp) -> (t: Timestamp)
        ensures
            t == self.spec_minus(other),
    {
        Timestamp { millis: field_sub(self.millis, other.millis) }
    }
}

} // verus!
