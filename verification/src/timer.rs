//! A wall-clock window for the countdown registers. The host reports the
//! current monotonic time in nanoseconds on every tick; the timer fires when
//! at least one period has elapsed since the last fire, and never more than
//! once per period.

use vstd::prelude::*;

verus! {

/// One countdown window: `state` records whether the most recent tick fired.
pub struct Timer {
    /// The firing period in nanoseconds.
    pub frequency_ns: u32,
    /// The host time, in nanoseconds, at which the timer last fired
    /// (or at which it was created or reset).
    pub clock_ns: u64,
    /// Whether the most recent `tick` fired.
    pub state: bool,
}

/// Whether a tick at host time `now_ns` fires the timer.
pub open spec fn gate_fires(pre: Timer, now_ns: u64) -> bool {
    pre.clock_ns + pre.frequency_ns <= now_ns
}

/// The exact effect of `tick`: the timer fires iff a full period has elapsed,
/// and a fire restarts the period from `now_ns`.
pub open spec fn post_tick(pre: Timer, post: Timer, now_ns: u64) -> bool {
    &&& post.frequency_ns == pre.frequency_ns
    &&& post.state == gate_fires(pre, now_ns)
    &&& post.clock_ns == if gate_fires(pre, now_ns) {
        now_ns
    } else {
        pre.clock_ns
    }
}

impl Timer {
    /// A timer with the given period, anchored at host time `now_ns`.
    pub fn new(frequency_ns: u32, now_ns: u64) -> (t: Timer)
        ensures
            t.frequency_ns == frequency_ns,
            t.clock_ns == now_ns,
            !t.state,
    {
        Timer { frequency_ns, clock_ns: now_ns, state: false }
    }

    /// Re-anchors the period at host time `now_ns` and clears the fire flag.
    pub fn reset(&mut self, now_ns: u64)
        ensures
            final(self).frequency_ns == old(self).frequency_ns,
            final(self).clock_ns == now_ns,
            !final(self).state,
    {
        self.state = false;
        self.clock_ns = now_ns;
    }

    /// Whether the most recent tick fired.
    pub fn active(&self) -> (r: bool)
        ensures
            r == self.state,
    {
        self.state
    }

    /// Checks the period against the host clock. Fires iff at least one period
    /// has elapsed since the last fire; a fire restarts the period.
    pub fn tick(&mut self, now_ns: u64)
        ensures
            post_tick(*old(self), *final(self), now_ns),
    {
        let fires = (self.clock_ns as u128) + (self.frequency_ns as u128) <= now_ns as u128;
        self.state = fires;
        if fires {
            self.clock_ns = now_ns;
        }
    }
}

/// Once the timer has fired at time `n1`, a later tick strictly inside the
/// same period cannot fire again: firings are at least one period apart.
pub proof fn lemma_gate_fires_at_most_once_per_period(
    pre: Timer,
    mid: Timer,
    post: Timer,
    n1: u64,
    n2: u64,
)
    requires
        post_tick(pre, mid, n1),
        mid.state,
        post_tick(mid, post, n2),
        n2 < n1 + pre.frequency_ns,
    ensures
        !post.state,
{
}

} // verus!
