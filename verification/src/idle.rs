//! The idle-driven backlight controller.
//!
//! On a fixed tick the controller reads elapsed idle time, picks a
//! brightness level through a three-threshold policy, and asks the
//! backlight register for the write to issue (usually none). A failed write
//! raises a consecutive-failure counter; at three the controller gives up
//! and plans no further writes, so a broken device node is not hammered
//! forever. Any success resets the counter — the only reading consistent
//! with "three consecutive failures".

use vstd::prelude::*;
use crate::backlight::{BacklightLevel, BacklightRegister};

verus! {

/// Idle seconds at which the backlight switches off.
pub const IDLE_OFF_SECS: u64 = 60;

/// Idle seconds at which the backlight dims.
pub const IDLE_DIM_SECS: u64 = 30;

/// Consecutive write failures after which the controller gives up.
pub const MAX_WRITE_FAILURES: u8 = 3;

/// The brightness level owed for an elapsed idle time: thresholds are
/// evaluated in descending order and the first match wins, so the policy is
/// a total function of the idle seconds alone.
pub open spec fn idle_policy_spec(idle_secs: u64) -> BacklightLevel {
    if idle_secs >= IDLE_OFF_SECS {
        BacklightLevel::Off
    } else if idle_secs >= IDLE_DIM_SECS {
        BacklightLevel::Dim
    } else {
        BacklightLevel::Max
    }
}

/// Apply the idle-threshold policy to an elapsed idle time.
pub fn idle_policy(idle_secs: u64) -> (level: BacklightLevel)
    ensures
        level == idle_policy_spec(idle_secs),
{
    if idle_secs >= IDLE_OFF_SECS {
        BacklightLevel::Off
    } else if idle_secs >= IDLE_DIM_SECS {
        BacklightLevel::Dim
    } else {
        BacklightLevel::Max
    }
}

/// The periodic task state driving the backlight register from idle time.
#[derive(Clone, Copy, PartialEq, Eq, Structural, Debug)]
pub struct IdleController {
    /// The backlight register this controller alone writes through.
    pub backlight: BacklightRegister,
    /// Consecutive failed writes since the last success, capped at
    /// `MAX_WRITE_FAILURES`.
    pub failures: u8,
}

/// The write a tick issues: nothing once the controller has given up, and
/// nothing when the policy's level is already the one cached; otherwise the
/// policy level, whose encoding is to be written to the hardware.
pub open spec fn plan_tick_spec(c: IdleController, idle_secs: u64) -> Option<BacklightLevel> {
    if c.gave_up() {
        None
    } else if idle_policy_spec(idle_secs) == c.backlight.current {
        None
    } else {
        Some(idle_policy_spec(idle_secs))
    }
}

/// The controller after a tick whose write (or no-op) succeeded: the
/// register caches the level now on the hardware and the consecutive
/// failure count starts over.
pub open spec fn note_success_spec(c: IdleController, level: BacklightLevel) -> IdleController {
    IdleController { backlight: BacklightRegister { current: level }, failures: 0 }
}

/// The controller after a failed write: the register is untouched (the
/// hardware kept its old content) and the failure count rises, capped once
/// the give-up bound is reached.
pub open spec fn note_failure_spec(c: IdleController) -> IdleController {
    IdleController {
        backlight: c.backlight,
        failures: if c.failures >= MAX_WRITE_FAILURES {
            c.failures
        } else {
            (c.failures + 1) as u8
        },
    }
}

impl IdleController {
    /// A fresh controller around the register read at startup.
    pub fn new(backlight: BacklightRegister) -> (c: IdleController)
        ensures
            c.backlight == backlight,
            c.failures == 0,
            !c.gave_up(),
    {
        IdleController { backlight, failures: 0 }
    }

    /// Whether three consecutive writes have failed and the controller has
    /// abandoned the device for good.
    pub open spec fn gave_up(&self) -> bool {
        self.failures >= MAX_WRITE_FAILURES
    }

    /// Whether the controller has given up; its task loop stops on `true`.
    pub fn has_given_up(&self) -> (b: bool)
        ensures
            b == self.gave_up(),
    {
        self.failures >= MAX_WRITE_FAILURES
    }

    /// Decide this tick's write from the elapsed idle time.
    pub fn plan_tick(&self, idle_secs: u64) -> (r: Option<BacklightLevel>)
        ensures
            r == plan_tick_spec(*self, idle_secs),
            r matches Some(level) ==> level == idle_policy_spec(idle_secs) && self.backlight.current
                != level,
    {
        if self.has_given_up() {
            None
        } else {
            let target = idle_policy(idle_secs);
            match self.backlight.write_needed(target) {
                Some(_) => Some(target),
                None => None,
            }
        }
    }

    /// Record a tick on which the hardware ended up at `level`: either the
    /// planned write of `level` succeeded, or no write was needed because
    /// `level` was cached already.
    pub fn note_success(&mut self, level: BacklightLevel)
        ensures
            *final(self) == note_success_spec(*old(self), level),
    {
        self.backlight.commit(level);
        self.failures = 0;
    }

    /// Record that the planned write failed.
    pub fn note_failure(&mut self)
        ensures
            *final(self) == note_failure_spec(*old(self)),
    {
        if self.failures < MAX_WRITE_FAILURES {
            self.failures = self.failures + 1;
        }
    }
}

/// Three consecutive write failures stop all further brightness writes:
/// from any controller state, after three failures in a row the controller
/// has given up, plans no write on any later tick whatever the idle time,
/// and has touched nothing beyond its own counter — the cached register
/// value, and everything outside the controller, stand as before.
pub proof fn lemma_three_failures_give_up(c: IdleController)
    ensures
        ({
            let stopped = note_failure_spec(note_failure_spec(note_failure_spec(c)));
            &&& stopped.gave_up()
            &&& stopped.backlight == c.backlight
            &&& forall|idle_secs: u64| plan_tick_spec(stopped, idle_secs) is None
        }),
{
}

/// A success wipes the failure history: the policy gives up only on three
/// failures with no success between them.
pub proof fn lemma_success_resets_failures(c: IdleController, level: BacklightLevel)
    ensures
        !note_success_spec(c, level).gave_up(),
        note_success_spec(c, level).failures == 0,
{
}

} // verus!
