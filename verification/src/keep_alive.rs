//! The keep-alive tracker: remembers the time of the last outbound
//! traffic and asks for a ping once more than half the negotiated
//! keep-alive interval has passed since — the safety margin that keeps
//! the broker from timing the session out over network jitter.

use vstd::prelude::*;

use crate::render::Renderable;

verus! {

/// Tracks the last outbound activity against the keep-alive interval.
/// `update_to_now` must be called after any outbound traffic, not only
/// after a ping.
pub struct MqttKeepAliver {
    /// Instant of the last outbound traffic.
    pub last_keep_alive: u64,
    /// The negotiated keep-alive interval, in the clock's units.
    pub keep_alive: u64,
}

impl MqttKeepAliver {
    /// A tracker whose interval starts running at `now`.
    pub fn new(keep_alive: u64, now: u64) -> (r: MqttKeepAliver)
        ensures
            r.last_keep_alive == now,
            r.keep_alive == keep_alive,
    {
        MqttKeepAliver { last_keep_alive: now, keep_alive }
    }

    /// The keep-alive interval as the wire format carries it.
    pub fn as_secs(&self) -> (r: u16)
        requires
            self.keep_alive <= u16::MAX,
        ensures
            r == self.keep_alive,
    {
        self.keep_alive as u16
    }

    /// Restart the interval: outbound traffic happened at `now`.
    pub fn update_to_now(&mut self, now: u64)
        ensures
            final(self).last_keep_alive == now,
            final(self).keep_alive == old(self).keep_alive,
    {
        self.last_keep_alive = now;
    }
}

impl Renderable for MqttKeepAliver {
    open spec fn spec_deadline(&self) -> int {
        self.last_keep_alive + self.keep_alive / 2
    }

    open spec fn cycle_due(&self, now: u64) -> bool {
        now > self.spec_deadline()
    }

    fn get_next_cycle_time(&self) -> (r: u64) {
        let half = self.keep_alive / 2;
        if self.last_keep_alive <= u64::MAX - half {
            self.last_keep_alive + half
        } else {
            u64::MAX
        }
    }

    fn needs_cycle(&self, now: u64) -> (r: bool) {
        if now <= self.last_keep_alive {
            false
        } else {
            now - self.last_keep_alive > self.keep_alive / 2
        }
    }
}

/// Law: right after `update_to_now` the tracker asks for no ping, and it
/// begins to ask exactly when the time passed since then exceeds half
/// the keep-alive interval — for any interval of at least two time
/// units, so the half is not degenerate.
pub proof fn lemma_keep_alive_timing(keep_alive: u64, now: u64, later: u64)
    requires
        keep_alive >= 2,
    ensures
        ({
            let k = MqttKeepAliver { last_keep_alive: now, keep_alive };
            &&& !k.cycle_due(now)
            &&& k.cycle_due(later) <==> later > now + keep_alive / 2
        }),
{
}

} // verus!
