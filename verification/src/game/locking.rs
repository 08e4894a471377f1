//! The delay between a piece touching down and its lock.

use vstd::prelude::*;
use crate::time::Duration;

verus! {

/// Nanoseconds that a piece may rest before it locks.
pub const LOCK_DELAY_NANOS: u128 = 500_000_000;

/// How often a move or a turn may restart the delay of one piece.
pub const MAX_LOCK_RESETS: u32 = 15;

/// The full lock delay.
pub fn lock_delay() -> (d: Duration)
    ensures
        d@ == LOCK_DELAY_NANOS,
{
    Duration::from_nanos(LOCK_DELAY_NANOS)
}

/// The lock timer of the piece in play.
///
/// It is idle while the piece is in the air and active, counting down, while
/// the piece rests on something.
#[derive(Debug, Clone, Copy, PartialEq, Eq, Structural)]
pub struct LockDelay {
    /// Time left before the lock.
    pub timer: Duration,
    /// Restarts used so far.
    pub resets: u32,
    /// Whether the piece rested on something at the last check.
    pub grounded: bool,
    /// Whether the timer is counting down.
    pub active: bool,
}

impl LockDelay {
    /// The timer of a fresh piece: idle, full, no restart used.
    pub open spec fn spec_new() -> LockDelay {
        LockDelay {
            timer: Duration { nanos: LOCK_DELAY_NANOS },
            resets: 0,
            grounded: false,
            active: false,
        }
    }

    /// The timer after a ground check.
    pub open spec fn after_ground_check(self, is_grounded: bool) -> LockDelay {
        LockDelay {
            timer: if is_grounded {
                self.timer
            } else {
                Duration { nanos: LOCK_DELAY_NANOS }
            },
            resets: self.resets,
            grounded: is_grounded,
            active: is_grounded,
        }
    }

    /// Whether a restart is accepted: the timer is active and the cap is not reached.
    pub open spec fn can_reset(self) -> bool {
        self.active && self.resets < MAX_LOCK_RESETS
    }

    /// The timer after a move or turn asked for a restart.
    pub open spec fn after_reset(self) -> LockDelay {
        if self.can_reset() {
            LockDelay {
                timer: Duration { nanos: LOCK_DELAY_NANOS },
                resets: (self.resets + 1) as u32,
                ..self
            }
        } else {
            self
        }
    }

    /// Whether the timer runs out within `dt`.
    pub open spec fn expires(self, dt: Duration) -> bool {
        self.active && dt@ >= self.timer@
    }

    /// The timer after `dt` has passed.
    pub open spec fn after_tick(self, dt: Duration) -> LockDelay {
        if !self.active {
            self
        } else if dt@ >= self.timer@ {
            LockDelay { timer: Duration { nanos: 0 }, ..self }
        } else {
            LockDelay { timer: Duration { nanos: (self.timer@ - dt@) as u128 }, ..self }
        }
    }

    /// The timer of a fresh piece.
    pub fn new() -> (lock: LockDelay)
        ensures
            lock == Self::spec_new(),
    {
        LockDelay { timer: lock_delay(), resets: 0, grounded: false, active: false }
    }

    /// Takes in whether the piece rests on something. Touching down starts
    /// the countdown or keeps it running; leaving the ground stops it and
    /// restores the full delay.
    pub fn start_if_grounded(&mut self, is_grounded: bool)
        ensures
            *final(self) == old(self).after_ground_check(is_grounded),
    {
        if is_grounded && !self.active {
            self.active = true;
            self.grounded = true;
        } else if !is_grounded {
            self.active = false;
            self.grounded = false;
            self.timer = lock_delay();
        }
        self.grounded = is_grounded;
    }

    /// Asks for a restart of the countdown after a move or a turn. It is
    /// granted while the timer is active and fewer restarts than the cap have
    /// been used.
    pub fn try_reset(&mut self) -> (accepted: bool)
        ensures
            accepted == old(self).can_reset(),
            *final(self) == old(self).after_reset(),
    {
        if self.active && self.resets < MAX_LOCK_RESETS {
            self.timer = lock_delay();
            self.resets += 1;
            true
        } else {
            false
        }
    }

    /// Lets `dt` pass and says whether the piece must lock now.
    pub fn tick(&mut self, dt: Duration) -> (must_lock: bool)
        ensures
            must_lock == old(self).expires(dt),
            *final(self) == old(self).after_tick(dt),
    {
        if !self.active {
            return false;
        }
        if dt.nanos >= self.timer.nanos {
            self.timer = Duration::zero();
            true
        } else {
            self.timer = Duration::from_nanos(self.timer.nanos - dt.nanos);
            false
        }
    }

    /// Back to the timer of a fresh piece.
    pub fn reset(&mut self)
        ensures
            *final(self) == Self::spec_new(),
    {
        self.timer = lock_delay();
        self.resets = 0;
        self.grounded = false;
        self.active = false;
    }

    /// How many restarts are left for this piece.
    pub fn resets_remaining(&self) -> (left: u32)
        ensures
            left == if self.resets <= MAX_LOCK_RESETS {
                MAX_LOCK_RESETS - self.resets
            } else {
                0
            },
    {
        if self.resets <= MAX_LOCK_RESETS {
            MAX_LOCK_RESETS - self.resets
        } else {
            0
        }
    }

    /// However often a restart is asked for, no more than the cap is granted
    /// to one piece, and a timer at the cap rejects every further request.
    pub proof fn lemma_reset_cap(self)
        requires
            self.resets <= MAX_LOCK_RESETS,
        ensures
            self.after_reset().resets <= MAX_LOCK_RESETS,
            self.resets == MAX_LOCK_RESETS ==> !self.can_reset() && self.after_reset() == self,
    {
    }
}

} // verus!
