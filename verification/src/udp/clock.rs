//! The monotonic clock.

use std::time::Instant;
use vstd::prelude::*;

verus! {

/// `std::time::Instant`, a reading of the monotonic clock.
#[verifier::external_type_specification]
#[verifier::external_body]
pub struct ExInstant(Instant);

/// Nanoseconds in a second.
pub const NANOS_PER_SEC: u128 = 1_000_000_000;

/// The longest time, in nanoseconds, that a `std::time::Duration` holds: its seconds are a
/// `u64`, and what is left is less than one second.
pub const MAX_DURATION_NANOS: u128 = 18_446_744_073_709_551_615_999_999_999;

/// A reading of the clock that was just taken. There is no other way to come by one than to take
/// it, and no way to copy one.
pub struct Reading {
    at: Instant,
}

impl Reading {
    /// What the clock read.
    pub closed spec fn at(self) -> Instant {
        self.at
    }

    /// What the clock read.
    pub(crate) fn instant(&self) -> (instant: Instant)
        ensures
            instant == self.at(),
    {
        self.at
    }
}

/// `std::time::Instant::now`: the current reading. Nothing is claimed of it.
#[verifier::external_body]
pub(crate) fn now() -> Reading {
    Reading { at: Instant::now() }
}

/// The nanoseconds from one reading of the clock to another; none if the other is earlier.
pub uninterp spec fn nanos_between(start: Instant, reading: Instant) -> u128;

/// `std::time::Instant::saturating_duration_since`: the time from `start` to `reading`, in
/// nanoseconds, which depends on the two alone. It is claimed to be no more than a
/// `std::time::Duration` holds.
#[verifier::external_body]
pub(crate) fn elapsed_nanos(start: &Instant, reading: &Instant) -> (nanos: u128)
    ensures
        nanos == nanos_between(*start, *reading),
        nanos <= MAX_DURATION_NANOS,
{
    reading.saturating_duration_since(*start).as_nanos()
}

} // verus!
