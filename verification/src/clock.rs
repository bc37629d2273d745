//! Wall-clock bookkeeping: the time learned from the network time
//! exchange, carried forward by the monotonic clock, and the arithmetic
//! that turns seconds into the hours and minutes the display shows.
//! Asking the network for the time happens outside this crate.

use vstd::prelude::*;

use crate::render::Renderable;

verus! {

/// Seconds per day.
pub const SECS_PER_DAY: u64 = 86400;

/// The wall-clock time: seconds learned from the last time exchange and
/// the monotonic instant that answer arrived at.
pub struct Clock {
    /// Seconds since the epoch, as the time exchange reported them.
    pub ntp_seconds: u64,
    /// The monotonic instant of the last time exchange.
    pub last_ntp: u64,
    /// Whether the clock has been drawn at least once.
    pub is_first_run: bool,
}

impl Clock {
    /// A clock synchronized to `ntp_seconds` at instant `last_ntp`.
    pub fn new(ntp_seconds: u64, last_ntp: u64) -> (r: Clock)
        ensures
            r.ntp_seconds == ntp_seconds,
            r.last_ntp == last_ntp,
            r.is_first_run,
    {
        Clock { ntp_seconds, last_ntp, is_first_run: true }
    }

    /// Adopt a fresh time exchange answer.
    pub fn set_system_time(&mut self, ntp_seconds: u64, last_ntp: u64)
        ensures
            final(self).ntp_seconds == ntp_seconds,
            final(self).last_ntp == last_ntp,
            final(self).is_first_run == old(self).is_first_run,
    {
        self.ntp_seconds = ntp_seconds;
        self.last_ntp = last_ntp;
    }

    /// The current wall-clock seconds at monotonic instant `now`: the
    /// synchronized seconds plus what has passed since the exchange.
    pub fn get_current_time(&self, now: u64) -> (r: u64)
        requires
            now >= self.last_ntp,
            self.ntp_seconds + (now - self.last_ntp) <= u64::MAX,
        ensures
            r == self.ntp_seconds + (now - self.last_ntp),
    {
        self.ntp_seconds + (now - self.last_ntp)
    }
}

impl Renderable for Clock {
    open spec fn spec_deadline(&self) -> int {
        self.last_ntp + 60
    }

    open spec fn cycle_due(&self, now: u64) -> bool {
        now >= self.last_ntp + 60 || self.is_first_run
    }

    fn get_next_cycle_time(&self) -> (r: u64) {
        if self.last_ntp <= u64::MAX - 60 {
            self.last_ntp + 60
        } else {
            u64::MAX
        }
    }

    fn needs_cycle(&self, now: u64) -> (r: bool) {
        self.is_first_run || (now >= self.last_ntp && now - self.last_ntp >= 60)
    }
}

/// A display timer: redraw every `render_speed` time units.
pub struct Timer {
    pub start_time: u64,
    pub render_speed: u64,
    pub last_cycle_time: u64,
}

impl Timer {
    /// A timer started at `start_time`, redrawing every `render_speed`.
    pub fn new(start_time: u64, render_speed: u64) -> (r: Timer)
        ensures
            r.start_time == start_time,
            r.render_speed == render_speed,
            r.last_cycle_time == start_time,
    {
        Timer { start_time, render_speed, last_cycle_time: start_time }
    }
}

impl Renderable for Timer {
    open spec fn spec_deadline(&self) -> int {
        self.last_cycle_time + self.render_speed
    }

    open spec fn cycle_due(&self, now: u64) -> bool {
        now >= self.spec_deadline()
    }

    fn get_next_cycle_time(&self) -> (r: u64) {
        if self.last_cycle_time <= u64::MAX - self.render_speed {
            self.last_cycle_time + self.render_speed
        } else {
            u64::MAX
        }
    }

    fn needs_cycle(&self, now: u64) -> (r: bool) {
        now >= self.last_cycle_time && now - self.last_cycle_time >= self.render_speed
    }
}

/// The hour and minute of the day that `seconds` since the epoch fall
/// on, the two numbers the clock face shows.
pub fn time_of_day(seconds: u64) -> (r: (u64, u64))
    ensures
        r.0 == seconds % SECS_PER_DAY / 3600,
        r.1 == seconds % SECS_PER_DAY % 3600 / 60,
        r.0 < 24,
        r.1 < 60,
{
    let seconds_today = seconds % SECS_PER_DAY;
    let curr_hour = seconds_today / 3600;
    let curr_min = seconds_today % 3600 / 60;
    (curr_hour, curr_min)
}

} // verus!
