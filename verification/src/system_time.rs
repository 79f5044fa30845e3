//! Points in time on the device's clock, in whole milliseconds since it
//! started, and how far they lie from now.
//!
//! The clock itself is not read here: every function that needs the current
//! time takes it as an argument.

use std::time::Duration;
use vstd::prelude::*;

verus! {

pub const NANOS_PER_MILLI: u128 = 1_000_000;

/// The length of a `Duration` in nanoseconds: what `Duration::as_nanos`
/// returns for it.
pub uninterp spec fn duration_nanos(d: Duration) -> nat;

/// `Duration::as_nanos` returns the total number of nanoseconds in the
/// duration. Not proved: that the result is the duration's length.
pub assume_specification[ Duration::as_nanos ](d: &Duration) -> (nanos: u128)
    ensures
        nanos == duration_nanos(*d),
;

/// `Duration::from_millis` makes the duration of that many milliseconds. Not
/// proved: that the result is a million nanoseconds long for each
/// millisecond.
pub assume_specification[ Duration::from_millis ](millis: u64) -> (d: Duration)
    ensures
        duration_nanos(d) == millis * NANOS_PER_MILLI,
;

/// The whole milliseconds of a duration, as the 64-bit counter holds them:
/// the low 64 bits of the count.
pub open spec fn whole_millis(d: Duration) -> u64 {
    (duration_nanos(d) / NANOS_PER_MILLI as nat) as u64
}

/// The whole milliseconds of two durations laid end to end, as the 64-bit
/// counter holds them.
pub open spec fn whole_millis_of_sum(a: Duration, b: Duration) -> u64 {
    ((duration_nanos(a) + duration_nanos(b)) / NANOS_PER_MILLI as nat) as u64
}

/// `millis` plus the whole milliseconds of `d`, as the 64-bit counter holds
/// them.
pub open spec fn millis_plus(millis: u64, d: Duration) -> u64 {
    (millis + duration_nanos(d) / NANOS_PER_MILLI as nat) as u64
}

/// Where a point in time lies, seen from now.
#[derive(Debug, PartialEq, Eq)]
pub enum Diff {
    /// The point lies in the past, or is now: this long ago.
    HasPassed(Duration),
    /// The point lies in the future: this far ahead.
    ToPass(Duration),
}

/// Where the point at `existing` milliseconds lies, seen from `now_ms`.
pub open spec fn is_diff_between(diff: Diff, existing: u64, now_ms: u64) -> bool {
    match diff {
        Diff::ToPass(d) => existing > now_ms && duration_nanos(d) == (existing - now_ms)
            * NANOS_PER_MILLI,
        Diff::HasPassed(d) => existing <= now_ms && duration_nanos(d) == (now_ms - existing)
            * NANOS_PER_MILLI,
    }
}

impl Diff {
    /// Where the point at `existing` milliseconds lies, seen from `now_ms`.
    pub fn between(existing: u64, now_ms: u64) -> (diff: Diff)
        ensures
            is_diff_between(diff, existing, now_ms),
    {
        if existing > now_ms {
            let diff: u64 = existing - now_ms;
            return Diff::ToPass(Duration::from_millis(diff));
        }
        let diff: u64 = now_ms - existing;
        Diff::HasPassed(Duration::from_millis(diff))
    }
}

/// A point in time, in milliseconds on the device's clock.
#[derive(Debug)]
pub struct AtomicSystemTime {
    millis: u64,
}

impl AtomicSystemTime {
    /// The point, in milliseconds.
    pub closed spec fn millis(&self) -> u64 {
        self.millis
    }

    /// The current time in whole milliseconds.
    pub fn now_millis(now: Duration) -> (ms: u64)
        ensures
            ms == whole_millis(now),
    {
        let current: u128 = now.as_nanos() / NANOS_PER_MILLI;
        #[verifier::truncate]
        (current as u64)
    }

    /// The current time.
    pub fn now(now: Duration) -> (t: Self)
        ensures
            t.millis() == whole_millis(now),
    {
        let now_ms = Self::now_millis(now);
        AtomicSystemTime { millis: now_ms }
    }

    /// The point at `ms` milliseconds.
    pub fn from_millis(ms: u64) -> (t: Self)
        ensures
            t.millis() == ms,
    {
        AtomicSystemTime { millis: ms }
    }

    /// The point that lies `d` after the clock started.
    pub fn from_duration(d: Duration) -> (t: Self)
        ensures
            t.millis() == whole_millis(d),
    {
        AtomicSystemTime { millis: Self::now_millis(d) }
    }

    /// The point, in milliseconds.
    pub fn as_millis(&self) -> (ms: u64)
        ensures
            ms == self.millis(),
    {
        self.millis
    }

    /// The point, as the time from the clock's start to it.
    pub fn as_duration(&self) -> (d: Duration)
        ensures
            duration_nanos(d) == self.millis() * NANOS_PER_MILLI,
    {
        let ms = self.as_millis();
        Duration::from_millis(ms)
    }

    /// Where the point lies, seen from `now`.
    pub fn since(&self, now: Duration) -> (diff: Diff)
        ensures
            is_diff_between(diff, self.millis(), whole_millis(now)),
    {
        let now_ms = Self::now_millis(now);
        let existing = self.millis;
        Diff::between(existing, now_ms)
    }

    /// How long ago the point was, if it is not in the future.
    pub fn has_passed(&self, now: Duration) -> (passed: Option<Duration>)
        ensures
            passed is Some <==> self.millis() <= whole_millis(now),
            passed matches Some(d) ==> duration_nanos(d) == (whole_millis(now) - self.millis())
                * NANOS_PER_MILLI,
    {
        if let Diff::HasPassed(d) = self.since(now) {
            return Some(d);
        }
        None
    }

    /// How far ahead the point is, if it is in the future.
    pub fn to_pass(&self, now: Duration) -> (ahead: Option<Duration>)
        ensures
            ahead is Some <==> self.millis() > whole_millis(now),
            ahead matches Some(d) ==> duration_nanos(d) == (self.millis() - whole_millis(now))
                * NANOS_PER_MILLI,
    {
        if let Diff::ToPass(d) = self.since(now) {
            return Some(d);
        }
        None
    }

    /// Moves the point to now, and returns the new point.
    pub fn set_now(&mut self, now: Duration) -> (t: Self)
        ensures
            final(self).millis() == whole_millis(now),
            t.millis() == whole_millis(now),
    {
        let now_ms = Self::now_millis(now);
        self.millis = now_ms;
        Self::from_millis(now_ms)
    }

    /// Moves the point to `d` from now, and returns the new point.
    pub fn add_duration_to_now(&mut self, now: Duration, d: Duration) -> (t: Self)
        ensures
            final(self).millis() == whole_millis_of_sum(now, d),
            t.millis() == whole_millis_of_sum(now, d),
    {
        let now_nanos: u128 = now.as_nanos();
        let d_nanos: u128 = d.as_nanos();
        // The milliseconds of the sum, without forming the sum itself.
        let carry: u128 = (now_nanos % NANOS_PER_MILLI + d_nanos % NANOS_PER_MILLI)
            / NANOS_PER_MILLI;
        let sum_millis: u128 = now_nanos / NANOS_PER_MILLI + d_nanos / NANOS_PER_MILLI + carry;
        assert(sum_millis == (now_nanos + d_nanos) / NANOS_PER_MILLI as int);
        let next: u64 = #[verifier::truncate]
        (sum_millis as u64);
        self.millis = next;
        Self::from_millis(next)
    }

    /// Moves the point to `millis` milliseconds from now, and returns the new
    /// point.
    pub fn add_millis_to_now(&mut self, now: Duration, millis: u64) -> (t: Self)
        requires
            whole_millis(now) + millis <= u64::MAX,
        ensures
            final(self).millis() == whole_millis(now) + millis,
            t.millis() == whole_millis(now) + millis,
    {
        let now_ms: u64 = Self::now_millis(now) + millis;
        self.millis = now_ms;
        Self::from_millis(now_ms)
    }

    /// Moves the point to `millis` milliseconds from now and returns the new
    /// point, where that fits the clock; leaves the point as it is and
    /// returns `None` where it does not.
    pub fn checked_add_millis_to_now(&mut self, now: Duration, millis: u64) -> (t: Option<Self>)
        ensures
            match t {
                Some(point) => whole_millis(now) + millis <= u64::MAX && point.millis()
                    == whole_millis(now) + millis && final(self).millis() == point.millis(),
                None => whole_millis(now) + millis > u64::MAX && final(self).millis() == old(
                    self,
                ).millis(),
            },
    {
        let now_ms: u64 = Self::now_millis(now);
        if millis <= u64::MAX - now_ms {
            Some(self.add_millis_to_now(now, millis))
        } else {
            None
        }
    }

    /// Moves the point `d` further, and returns the new point.
    pub fn add_duration(&mut self, d: Duration) -> (t: Self)
        ensures
            final(self).millis() == millis_plus(old(self).millis(), d),
            t.millis() == millis_plus(old(self).millis(), d),
    {
        let d_millis: u128 = d.as_nanos() / NANOS_PER_MILLI;
        let sum: u128 = self.millis as u128 + d_millis;
        let next: u64 = #[verifier::truncate]
        (sum as u64);
        self.millis = next;
        Self::from_millis(next)
    }

    /// Moves the point `millis` milliseconds further and returns the new
    /// point, where that fits the clock; leaves the point as it is and
    /// returns `None` where it does not.
    pub fn checked_add_millis(&mut self, millis: u64) -> (t: Option<Self>)
        ensures
            match t {
                Some(point) => old(self).millis() + millis <= u64::MAX && point.millis() == old(
                    self,
                ).millis() + millis && final(self).millis() == point.millis(),
                None => old(self).millis() + millis > u64::MAX && final(self).millis() == old(
                    self,
                ).millis(),
            },
    {
        if millis <= u64::MAX - self.millis {
            Some(self.add_millis(millis))
        } else {
            None
        }
    }

    /// Moves the point `millis` milliseconds further, and returns the new
    /// point.
    pub fn add_millis(&mut self, millis: u64) -> (t: Self)
        requires
            old(self).millis() + millis <= u64::MAX,
        ensures
            final(self).millis() == old(self).millis() + millis,
            t.millis() == old(self).millis() + millis,
    {
        let next: u64 = self.as_millis() + millis;
        self.millis = next;
        Self::from_millis(next)
    }
}

} // verus!
