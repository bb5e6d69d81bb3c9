//! The time since a start.

use crate::udp::clock::{elapsed_nanos, nanos_between, now, Reading, MAX_DURATION_NANOS};
use std::time::Instant;
use vstd::prelude::*;

verus! {

/// Whether each reading is at least as long after `start` as those before it.
pub open spec fn in_order(start: Instant, readings: Seq<Instant>) -> bool {
    forall|i: int, j: int|
        #![trigger nanos_between(start, readings[i]), nanos_between(start, readings[j])]
        0 <= i <= j < readings.len() ==> nanos_between(start, readings[i]) <= nanos_between(
            start,
            readings[j],
        )
}

/// Counts the time from the reading of the clock that it was started with, and does not go back.
pub struct Stopwatch {
    start: Instant,
    latest: Instant,
    readings: Ghost<Seq<Instant>>,
}

impl Stopwatch {
    /// The reading that the stopwatch was started with.
    pub closed spec fn start(self) -> Instant {
        self.start
    }

    /// All readings counted so far, the one that the stopwatch was started with first.
    pub closed spec fn readings(self) -> Seq<Instant> {
        self.readings@
    }

    /// The readings are in order, from the start to the latest.
    pub closed spec fn wf(self) -> bool {
        &&& self.readings@.len() > 0
        &&& self.readings@[0] == self.start
        &&& self.readings@.last() == self.latest
        &&& in_order(self.start, self.readings@)
    }

    /// A stopwatch that is started now.
    pub(crate) fn started() -> (stopwatch: Self)
        ensures
            stopwatch.wf(),
            stopwatch.readings() == seq![stopwatch.start()],
    {
        let start = now().instant();
        let ghost readings = seq![start];
        Stopwatch { start, latest: start, readings: Ghost(readings) }
    }

    /// Takes a reading of the clock, and counts it, or the latest one counted where the clock
    /// has gone back since. Returns the reading taken, and the nanoseconds from the start to
    /// the one counted.
    pub(crate) fn read(&mut self) -> (taken: (Reading, u128))
        requires
            old(self).wf(),
        ensures
            final(self).wf(),
            final(self).start() == old(self).start(),
            final(self).readings() == old(self).readings().push(final(self).readings().last()),
            final(self).readings().last() == if nanos_between(old(self).start(), taken.0.at())
                >= nanos_between(old(self).start(), old(self).readings().last()) {
                taken.0.at()
            } else {
                old(self).readings().last()
            },
            taken.1 == nanos_between(old(self).start(), final(self).readings().last()),
            taken.1 >= nanos_between(old(self).start(), taken.0.at()),
            taken.1 <= MAX_DURATION_NANOS,
            forall|known: Instant| #[trigger]
                old(self).readings().contains(known) ==> nanos_between(old(self).start(), known)
                    <= taken.1,
    {
        // Taken anew each time: a reading cannot be kept and handed out again.
        let reading = now();
        let nanos = elapsed_nanos(&self.start, &reading.instant());
        let latest_nanos = elapsed_nanos(&self.start, &self.latest);
        let counted = if nanos >= latest_nanos {
            reading.instant()
        } else {
            self.latest
        };
        self.latest = counted;
        self.readings = Ghost(self.readings@.push(counted));
        if nanos >= latest_nanos {
            (reading, nanos)
        } else {
            (reading, latest_nanos)
        }
    }

    /// A stopwatch with the same start and the same readings.
    pub(crate) fn copy(&self) -> (stopwatch: Self)
        ensures
            stopwatch == *self,
    {
        Stopwatch { start: self.start, latest: self.latest, readings: Ghost(self.readings@) }
    }
}

/// The readings of a stopwatch begin with its start, and each is at least as long after the start
/// as those before it.
pub proof fn stopwatches_do_not_go_back(stopwatch: Stopwatch)
    requires
        stopwatch.wf(),
    ensures
        stopwatch.readings().len() > 0,
        stopwatch.readings()[0] == stopwatch.start(),
        in_order(stopwatch.start(), stopwatch.readings()),
{
}

} // verus!
