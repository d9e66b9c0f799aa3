//! Calendar days, the granularity at which freshness is judged.

use vstd::prelude::*;
use chrono::Datelike;

verus! {

/// A calendar day without a time of day.
///
/// Days are ordered by year, then month, then day of month.
#[derive(Clone, Copy, Debug, PartialEq, Eq, Structural)]
pub struct Day {
    pub year: i32,
    pub month: u32,
    pub day: u32,
}

impl Day {
    /// `self` lies strictly after `other`.
    pub open spec fn is_after(self, other: Day) -> bool {
        self.year > other.year || (self.year == other.year && (self.month > other.month || (
        self.month == other.month && self.day > other.day)))
    }

    /// Month and day of month are in the ranges a calendar uses.
    pub open spec fn in_calendar_range(self) -> bool {
        1 <= self.month <= 12 && 1 <= self.day <= 31
    }

    /// The day with the given year, month and day of month.
    pub fn new(year: i32, month: u32, day: u32) -> (d: Day)
        ensures
            d == (Day { year, month, day }),
    {
        Day { year, month, day }
    }

    /// Strict comparison by year, month and day of month.
    pub fn after(&self, other: &Day) -> (later: bool)
        ensures
            later == self.is_after(*other),
    {
        if self.year != other.year {
            self.year > other.year
        } else if self.month != other.month {
            self.month > other.month
        } else {
            self.day > other.day
        }
    }
}

/// The calendar day in UTC on which a Unix timestamp falls, as
/// `chrono::DateTime::from_timestamp` and `chrono::Datelike` give it, or
/// `None` where chrono has no date for the timestamp.
pub uninterp spec fn timestamp_day(seconds: i64, nanos: u32) -> Option<Day>;

/// The time since the start of 1970 by the system clock, in whole seconds
/// and nanoseconds within the second, or `None` where the clock reads
/// earlier than that.
///
/// Calls `elapsed` on `std::time::UNIX_EPOCH`, which gives an error, and no
/// panic, for a clock that is behind the epoch. The result depends on the
/// clock, so nothing is claimed about it but what `Duration::subsec_nanos`
/// documents: the nanoseconds stay below one second.
#[verifier::external_body]
fn unix_time() -> (since: Option<(u64, u32)>)
    ensures
        since matches Some((_, nanos)) ==> nanos < 1_000_000_000,
{
    match std::time::UNIX_EPOCH.elapsed() {
        Ok(since) => Some((since.as_secs(), since.subsec_nanos())),
        Err(_) => None,
    }
}

/// The calendar day in UTC of a Unix timestamp.
///
/// Calls `chrono::DateTime::from_timestamp`, which gives `None` for seconds
/// or nanoseconds out of its range and never panics, and reads year, month
/// and day of month through `chrono::Datelike`, which documents the month
/// as 1 to 12 and the day as 1 to 31.
#[verifier::external_body]
fn day_at(seconds: i64, nanos: u32) -> (day: Option<Day>)
    ensures
        day == timestamp_day(seconds, nanos),
        day matches Some(found) ==> found.in_calendar_range(),
{
    match chrono::DateTime::from_timestamp(seconds, nanos) {
        Some(at) => Some(Day { year: at.year(), month: at.month(), day: at.day() }),
        None => None,
    }
}

/// The calendar day in UTC of a clock reading: whole seconds since the
/// start of 1970 and nanoseconds within the second. There is none where the
/// seconds do not fit a signed timestamp or lie beyond the dates there are.
pub open spec fn reading_day(seconds: u64, nanos: u32) -> Option<Day> {
    if seconds > 0x7fff_ffff_ffff_ffff {
        None
    } else {
        timestamp_day(seconds as i64, nanos)
    }
}

/// The calendar day in UTC on which a clock reading falls.
pub fn day_of(seconds: u64, nanos: u32) -> (day: Option<Day>)
    ensures
        day == reading_day(seconds, nanos),
        day matches Some(found) ==> found.in_calendar_range(),
{
    if seconds > 0x7fff_ffff_ffff_ffff {
        None
    } else {
        day_at(seconds as i64, nanos)
    }
}

/// The current day in UTC, or `None` where the system clock cannot be read
/// as a calendar day: it is behind 1970, or further ahead than dates go.
///
/// What the clock reads is up to the clock. Whatever it reads, the day that
/// comes back is the day of a reading, as [`day_of`] gives it, with month
/// and day of month in calendar range.
pub fn today() -> (today: Option<Day>)
    ensures
        today matches Some(day) ==> day.in_calendar_range() && exists|seconds: u64, nanos: u32|
            nanos < 1_000_000_000 && reading_day(seconds, nanos) == Some(day),
{
    match unix_time() {
        Some((seconds, nanos)) => day_of(seconds, nanos),
        None => None,
    }
}

/// No day lies after itself.
pub proof fn lemma_after_irreflexive(a: Day)
    ensures
        !a.is_after(a),
{
}

/// Of two different days exactly one lies after the other.
pub proof fn lemma_after_total(a: Day, b: Day)
    ensures
        a == b || a.is_after(b) || b.is_after(a),
        !(a.is_after(b) && b.is_after(a)),
{
}

/// A day after a day after `c` lies after `c`.
pub proof fn lemma_after_transitive(a: Day, b: Day, c: Day)
    requires
        a.is_after(b),
        b.is_after(c),
    ensures
        a.is_after(c),
{
}

} // verus!
