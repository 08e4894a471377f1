//! Counters of one game.

use vstd::prelude::*;
use crate::text::{clock_text, format_clock};
use crate::time::Duration;

verus! {

/// What a game has counted so far.
#[derive(Debug, Clone, Copy, PartialEq, Eq, Structural)]
pub struct Stats {
    pub pieces_placed: u32,
    pub lines_cleared: u32,
    pub score: u64,
    pub level: u32,
    /// Time played.
    pub time: Duration,
    pub attack_sent: u32,
    pub garbage_received: u32,
    pub garbage_cleared: u32,
    pub singles: u32,
    pub doubles: u32,
    pub triples: u32,
    pub quads: u32,
    /// T-spins of every kind but mini T-spins that cleared a line.
    pub tspins: u32,
    pub tspin_singles: u32,
    pub tspin_doubles: u32,
    pub tspin_triples: u32,
    /// Mini T-spins that cleared a line.
    pub mini_tspins: u32,
    pub all_spins: u32,
    pub perfect_clears: u32,
    pub max_combo: u32,
    pub max_btb: u32,
    /// Actions taken.
    pub inputs: u32,
}

impl Stats {
    /// All counters at zero.
    pub open spec fn spec_new() -> Stats {
        Stats {
            pieces_placed: 0,
            lines_cleared: 0,
            score: 0,
            level: 0,
            time: Duration { nanos: 0 },
            attack_sent: 0,
            garbage_received: 0,
            garbage_cleared: 0,
            singles: 0,
            doubles: 0,
            triples: 0,
            quads: 0,
            tspins: 0,
            tspin_singles: 0,
            tspin_doubles: 0,
            tspin_triples: 0,
            mini_tspins: 0,
            all_spins: 0,
            perfect_clears: 0,
            max_combo: 0,
            max_btb: 0,
            inputs: 0,
        }
    }

    /// All counters at zero.
    pub fn new() -> (stats: Stats)
        ensures
            stats == Self::spec_new(),
    {
        Stats {
            pieces_placed: 0,
            lines_cleared: 0,
            score: 0,
            level: 0,
            time: Duration::zero(),
            attack_sent: 0,
            garbage_received: 0,
            garbage_cleared: 0,
            singles: 0,
            doubles: 0,
            triples: 0,
            quads: 0,
            tspins: 0,
            tspin_singles: 0,
            tspin_doubles: 0,
            tspin_triples: 0,
            mini_tspins: 0,
            all_spins: 0,
            perfect_clears: 0,
            max_combo: 0,
            max_btb: 0,
            inputs: 0,
        }
    }

    /// The time played as `MM:SS.mmm`.
    pub fn format_time(&self) -> (text: String)
        ensures
            text@ == clock_text(self.time@ / 1_000_000),
    {
        format_clock(self.time.as_millis())
    }

    /// Sets all counters back to zero.
    pub fn reset(&mut self)
        ensures
            *final(self) == Self::spec_new(),
    {
        *self = Self::new();
    }
}

} // verus!
