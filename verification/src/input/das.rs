//! Delayed auto-shift: a key that is held starts to repeat after a delay,
//! and then repeats at a fixed rate.

use vstd::prelude::*;
use crate::time::Duration;

verus! {

/// Nanoseconds a key is held before it starts to repeat.
pub const DAS_DELAY_NANOS: u128 = 133_000_000;

/// Nanoseconds between two repeats of a move key; zero repeats at once.
pub const ARR_DELAY_NANOS: u128 = 0;

/// Nanoseconds between two repeats of the soft-drop key; zero repeats at once.
pub const SD_ARR_DELAY_NANOS: u128 = 0;

/// The moves reported when a key repeats at once: enough to reach any wall.
pub const INSTANT_MOVES: u32 = 20;

/// The usual delay before a held key starts to repeat.
pub fn das_delay() -> (d: Duration)
    ensures
        d@ == DAS_DELAY_NANOS,
{
    Duration::from_nanos(DAS_DELAY_NANOS)
}

/// The usual time between two repeats of a move key.
pub fn arr_delay() -> (d: Duration)
    ensures
        d@ == ARR_DELAY_NANOS,
{
    Duration::from_nanos(ARR_DELAY_NANOS)
}

/// The usual time between two repeats of the soft-drop key.
pub fn sd_arr_delay() -> (d: Duration)
    ensures
        d@ == SD_ARR_DELAY_NANOS,
{
    Duration::from_nanos(SD_ARR_DELAY_NANOS)
}

/// Where a key is in its cycle.
#[derive(Debug, Clone, Copy, PartialEq, Eq, Structural)]
pub enum DasPhase {
    Idle,
    /// Held, waiting for the delay to run out.
    Charging,
    /// Held and repeating.
    Repeating,
}

/// The auto-shift state of one key.
#[derive(Debug, Clone, Copy, PartialEq, Eq, Structural)]
pub struct DasState {
    pub pressed: bool,
    pub phase: DasPhase,
    pub timer: Duration,
}

impl DasState {
    /// A key that is not held.
    pub open spec fn spec_new() -> DasState {
        DasState { pressed: false, phase: DasPhase::Idle, timer: Duration { nanos: 0 } }
    }

    /// Whether the timer takes in `dt`: a held key does, unless it is idle
    /// or repeats at once.
    pub open spec fn gathers(self, arr_delay: Duration) -> bool {
        self.pressed && (self.phase is Charging || (self.phase is Repeating && arr_delay.nanos
            != 0))
    }

    /// The moves that a step of `dt` reports. A key that is held for the
    /// delay starts to repeat and reports its first move with whatever
    /// repeats fit into the time beyond the delay; a repeating key reports
    /// one move per repeat interval gathered; a key that repeats at once
    /// reports twenty.
    pub open spec fn tick_moves(
        self,
        dt: Duration,
        das_delay: Duration,
        arr_delay: Duration,
    ) -> int {
        if !self.pressed {
            0
        } else {
            match self.phase {
                DasPhase::Idle => 0,
                DasPhase::Charging => if self.timer.nanos + dt.nanos >= das_delay.nanos {
                    if arr_delay.nanos == 0 {
                        20
                    } else {
                        1 + (self.timer.nanos + dt.nanos - das_delay.nanos) / (
                        arr_delay.nanos as int)
                    }
                } else {
                    0
                },
                DasPhase::Repeating => if arr_delay.nanos == 0 {
                    20
                } else {
                    (self.timer.nanos + dt.nanos) / (arr_delay.nanos as int)
                },
            }
        }
    }

    /// The state after a step of `dt`.
    pub open spec fn after_tick(
        self,
        dt: Duration,
        das_delay: Duration,
        arr_delay: Duration,
    ) -> DasState {
        if !self.pressed {
            self
        } else {
            match self.phase {
                DasPhase::Idle => self,
                DasPhase::Charging => if self.timer.nanos + dt.nanos >= das_delay.nanos {
                    DasState {
                        phase: DasPhase::Repeating,
                        timer: Duration {
                            nanos: (self.timer.nanos + dt.nanos - das_delay.nanos) as u128,
                        },
                        ..self
                    }
                } else {
                    DasState {
                        timer: Duration { nanos: (self.timer.nanos + dt.nanos) as u128 },
                        ..self
                    }
                },
                DasPhase::Repeating => if arr_delay.nanos == 0 {
                    self
                } else {
                    DasState {
                        timer: Duration {
                            nanos: ((self.timer.nanos + dt.nanos) % (
                            arr_delay.nanos as int)) as u128,
                        },
                        ..self
                    }
                },
            }
        }
    }

    /// Whether the timer and the move count have room for a step of `dt`.
    pub open spec fn tick_fits(
        self,
        dt: Duration,
        das_delay: Duration,
        arr_delay: Duration,
    ) -> bool {
        self.gathers(arr_delay) ==> self.timer.nanos + dt.nanos <= u128::MAX && self.tick_moves(
            dt,
            das_delay,
            arr_delay,
        ) <= u32::MAX
    }

    /// A key that is not held.
    pub fn new() -> (state: DasState)
        ensures
            state == Self::spec_new(),
    {
        DasState { pressed: false, phase: DasPhase::Idle, timer: Duration::zero() }
    }

    /// The key went down: it starts to charge.
    pub fn press(&mut self)
        ensures
            *final(self) == (DasState {
                pressed: true,
                phase: DasPhase::Charging,
                timer: Duration { nanos: 0 },
            }),
    {
        self.pressed = true;
        self.phase = DasPhase::Charging;
        self.timer = Duration::zero();
    }

    /// The key went up.
    pub fn release(&mut self)
        ensures
            *final(self) == Self::spec_new(),
    {
        self.pressed = false;
        self.phase = DasPhase::Idle;
        self.timer = Duration::zero();
    }

    /// Lets `dt` pass and returns the number of moves to make now.
    pub fn tick(&mut self, dt: Duration, das_delay: Duration, arr_delay: Duration) -> (moves: u32)
        requires
            old(self).tick_fits(dt, das_delay, arr_delay),
        ensures
            moves == old(self).tick_moves(dt, das_delay, arr_delay),
            *final(self) == old(self).after_tick(dt, das_delay, arr_delay),
    {
        if !self.pressed {
            return 0;
        }
        match self.phase {
            DasPhase::Idle => 0,
            DasPhase::Charging => {
                self.timer = Duration::from_nanos(self.timer.nanos + dt.nanos);
                if self.timer.nanos >= das_delay.nanos {
                    self.phase = DasPhase::Repeating;
                    let overshoot = Duration::from_nanos(self.timer.nanos - das_delay.nanos);
                    self.timer = overshoot;
                    if arr_delay.is_zero() {
                        INSTANT_MOVES
                    } else {
                        1 + (overshoot.as_nanos() / arr_delay.as_nanos()) as u32
                    }
                } else {
                    0
                }
            },
            DasPhase::Repeating => {
                if arr_delay.is_zero() {
                    INSTANT_MOVES
                } else {
                    let gathered: u128 = self.timer.nanos + dt.nanos;
                    self.timer = Duration::from_nanos(gathered % arr_delay.nanos);
                    (gathered / arr_delay.nanos) as u32
                }
            },
        }
    }

    /// Whether the timer and the move count have room for a step of `dt`.
    /// A step must not be taken when this is false.
    pub fn can_tick(&self, dt: Duration, das_delay: Duration, arr_delay: Duration) -> (ok: bool)
        ensures
            ok == self.tick_fits(dt, das_delay, arr_delay),
    {
        if !self.pressed {
            return true;
        }
        match self.phase {
            DasPhase::Idle => true,
            DasPhase::Charging => {
                if dt.nanos > u128::MAX - self.timer.nanos {
                    return false;
                }
                let gathered: u128 = self.timer.nanos + dt.nanos;
                if gathered < das_delay.nanos || arr_delay.nanos == 0 {
                    true
                } else {
                    (gathered - das_delay.nanos) / arr_delay.nanos < u32::MAX as u128
                }
            },
            DasPhase::Repeating => {
                if arr_delay.nanos == 0 {
                    true
                } else if dt.nanos > u128::MAX - self.timer.nanos {
                    false
                } else {
                    (self.timer.nanos + dt.nanos) / arr_delay.nanos <= u32::MAX as u128
                }
            },
        }
    }

    /// Whether the key is held.
    pub fn is_active(&self) -> (active: bool)
        ensures
            active == self.pressed,
    {
        self.pressed
    }

    /// Back to a key that is not held.
    pub fn reset(&mut self)
        ensures
            *final(self) == Self::spec_new(),
    {
        self.pressed = false;
        self.phase = DasPhase::Idle;
        self.timer = Duration::zero();
    }
}

/// The auto-shift state of the two move keys and the soft-drop key.
#[derive(Debug, Clone, Copy, PartialEq, Eq, Structural)]
pub struct DasHandler {
    pub left: DasState,
    pub right: DasState,
    pub soft_drop: DasState,
    pub das_delay: Duration,
    pub arr_delay: Duration,
    pub sd_arr_delay: Duration,
}

impl DasHandler {
    /// No key held, and the usual delays.
    pub open spec fn spec_new() -> DasHandler {
        DasHandler {
            left: DasState::spec_new(),
            right: DasState::spec_new(),
            soft_drop: DasState::spec_new(),
            das_delay: Duration { nanos: DAS_DELAY_NANOS },
            arr_delay: Duration { nanos: ARR_DELAY_NANOS },
            sd_arr_delay: Duration { nanos: SD_ARR_DELAY_NANOS },
        }
    }

    /// The handler after a step of `dt`.
    pub open spec fn after_tick(self, dt: Duration) -> DasHandler {
        DasHandler {
            left: self.left.after_tick(dt, self.das_delay, self.arr_delay),
            right: self.right.after_tick(dt, self.das_delay, self.arr_delay),
            soft_drop: self.soft_drop.after_tick(dt, self.das_delay, self.sd_arr_delay),
            ..self
        }
    }

    /// Whether all three keys have room for a step of `dt`.
    pub open spec fn tick_fits(self, dt: Duration) -> bool {
        &&& self.left.tick_fits(dt, self.das_delay, self.arr_delay)
        &&& self.right.tick_fits(dt, self.das_delay, self.arr_delay)
        &&& self.soft_drop.tick_fits(dt, self.das_delay, self.sd_arr_delay)
    }

    /// No key held, and the usual delays.
    pub fn new() -> (handler: DasHandler)
        ensures
            handler == Self::spec_new(),
    {
        DasHandler {
            left: DasState::new(),
            right: DasState::new(),
            soft_drop: DasState::new(),
            das_delay: das_delay(),
            arr_delay: arr_delay(),
            sd_arr_delay: sd_arr_delay(),
        }
    }

    /// Lets `dt` pass for all three keys and returns the moves to make to
    /// the left, to the right and down.
    pub fn tick(&mut self, dt: Duration) -> (moves: (u32, u32, u32))
        requires
            old(self).tick_fits(dt),
        ensures
            moves.0 == old(self).left.tick_moves(dt, old(self).das_delay, old(self).arr_delay),
            moves.1 == old(self).right.tick_moves(dt, old(self).das_delay, old(self).arr_delay),
            moves.2 == old(self).soft_drop.tick_moves(
                dt,
                old(self).das_delay,
                old(self).sd_arr_delay,
            ),
            *final(self) == old(self).after_tick(dt),
    {
        let left = self.left.tick(dt, self.das_delay, self.arr_delay);
        let right = self.right.tick(dt, self.das_delay, self.arr_delay);
        let sd = self.soft_drop.tick(dt, self.das_delay, self.sd_arr_delay);
        (left, right, sd)
    }

    /// Whether all three keys have room for a step of `dt`. A step must not
    /// be taken when this is false.
    pub fn can_tick(&self, dt: Duration) -> (ok: bool)
        ensures
            ok == self.tick_fits(dt),
    {
        self.left.can_tick(dt, self.das_delay, self.arr_delay) && self.right.can_tick(
            dt,
            self.das_delay,
            self.arr_delay,
        ) && self.soft_drop.can_tick(dt, self.das_delay, self.sd_arr_delay)
    }

    /// Back to no key held; the delays stay.
    pub fn reset(&mut self)
        ensures
            *final(self) == (DasHandler {
                left: DasState::spec_new(),
                right: DasState::spec_new(),
                soft_drop: DasState::spec_new(),
                ..*old(self)
            }),
    {
        self.left.reset();
        self.right.reset();
        self.soft_drop.reset();
    }
}

} // verus!
