//! The scheduling contract shared by every independent timer in the
//! system: each exposes the instant by which it wants to run again, so
//! the outer loop can sleep until the earliest deadline instead of
//! polling, and a predicate saying whether that deadline has passed.
//!
//! Instants are monotonic timestamps in the clock's own units, supplied
//! by the caller; nothing here reads a clock.

use vstd::prelude::*;

verus! {

/// A timer that can say when it next wants to run.
pub trait Renderable {
    /// The instant by which this timer wants to run again, as a
    /// mathematical value free of machine limits.
    spec fn spec_deadline(&self) -> int;

    /// Whether the timer is due at `now`.
    spec fn cycle_due(&self, now: u64) -> bool;

    /// The next deadline, saturated to the largest representable
    /// instant.
    fn get_next_cycle_time(&self) -> (r: u64)
        ensures
            r == if self.spec_deadline() > u64::MAX {
                u64::MAX as int
            } else {
                self.spec_deadline()
            },
    ;

    /// Whether this timer is due at `now`.
    fn needs_cycle(&self, now: u64) -> (r: bool)
        ensures
            r == self.cycle_due(now),
    ;
}

} // verus!
