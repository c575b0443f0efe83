//! The activity clock: the single shared "time of last input event".
//!
//! Every input monitor touches the clock on every event; the idle
//! controller reads it to compute elapsed idle time. Times are milliseconds
//! on a monotonic clock, so a reading taken after an event is never smaller
//! than the event's time. The surrounding program guards the value with a
//! lock so each touch or read is one atomic critical section; the logic
//! here is what any serialization of those critical sections yields.

use vstd::prelude::*;

verus! {

/// Milliseconds per second, for turning clock readings into idle seconds.
pub const MILLIS_PER_SEC: u64 = 1000;

/// The shared slot holding the time of the most recent observed input event.
#[derive(Clone, Copy, PartialEq, Eq, Structural, Debug)]
pub struct ActivityClock {
    /// Monotonic time, in milliseconds, of the most recent observed event.
    pub last_event_ms: u64,
}

impl ActivityClock {
    /// A clock that counts the present moment as the last activity, as at
    /// process start.
    pub fn new(now_ms: u64) -> (c: ActivityClock)
        ensures
            c.last_event_ms == now_ms,
    {
        ActivityClock { last_event_ms: now_ms }
    }

    /// Record an input event observed now. Unconditional: later touches
    /// simply overwrite earlier ones, which is harmless since every writer
    /// stores its own present moment.
    pub fn touch(&mut self, now_ms: u64)
        ensures
            final(self).last_event_ms == now_ms,
    {
        self.last_event_ms = now_ms;
    }

    /// Whole seconds elapsed since the last observed event, zero when the
    /// reading predates the stored event time.
    pub open spec fn idle_seconds_spec(&self, now_ms: u64) -> u64 {
        if now_ms >= self.last_event_ms {
            (((now_ms - self.last_event_ms) as u64) / MILLIS_PER_SEC) as u64
        } else {
            0
        }
    }

    /// Elapsed idle time, in whole seconds, at reading time `now_ms`.
    pub fn idle_seconds(&self, now_ms: u64) -> (s: u64)
        ensures
            s == self.idle_seconds_spec(now_ms),
    {
        if now_ms >= self.last_event_ms {
            (now_ms - self.last_event_ms) / MILLIS_PER_SEC
        } else {
            0
        }
    }
}

/// The clock after a series of touches, applied in the order some
/// serialization of the concurrent touchers ran them.
pub open spec fn apply_touches_spec(c: ActivityClock, touches: Seq<u64>) -> ActivityClock
    decreases touches.len(),
{
    if touches.len() == 0 {
        c
    } else {
        apply_touches_spec(ActivityClock { last_event_ms: touches[0] }, touches.drop_first())
    }
}

/// No touch is ever lost: however many concurrent sources touched the
/// clock, and in whatever order their critical sections were serialized,
/// the clock afterwards holds exactly the time of the touch that ran last,
/// and an immediate reading sees only the delay since that touch — never a
/// stale value from before the touches.
pub proof fn lemma_touches_never_lost(c: ActivityClock, touches: Seq<u64>, now_ms: u64)
    requires
        touches.len() > 0,
        now_ms >= touches.last(),
    ensures
        apply_touches_spec(c, touches).last_event_ms == touches.last(),
        apply_touches_spec(c, touches).idle_seconds_spec(now_ms) == ((now_ms - touches.last())
            / (MILLIS_PER_SEC as int)) as u64,
    decreases touches.len(),
{
    let c0 = ActivityClock { last_event_ms: touches[0] };
    let rest = touches.drop_first();
    assert(apply_touches_spec(c, touches) == apply_touches_spec(c0, rest));
    if touches.len() == 1 {
        assert(rest.len() == 0);
        assert(apply_touches_spec(c0, rest) == c0);
        assert(touches.last() == touches[0]);
    } else {
        assert(rest.last() == touches.last());
        lemma_touches_never_lost(c0, rest, now_ms);
    }
}

} // verus!
