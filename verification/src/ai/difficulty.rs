//! The difficulty presets of the opponent.

use vstd::prelude::*;
use crate::time::Duration;

verus! {

/// How strong the opponent plays.
#[derive(Debug, Clone, Copy, PartialEq, Eq, Structural)]
pub enum AiDifficulty {
    Easy,
    Medium,
    Hard,
    Expert,
}

/// The weights of the board evaluation, in hundredths.
#[derive(Debug, Clone, Copy, PartialEq, Eq, Structural)]
pub struct EvalWeights {
    pub aggregate_height: i16,
    pub holes: i16,
    pub bumpiness: i16,
    pub lines_cleared: i16,
    pub wells: i16,
    pub column_transitions: i16,
    pub row_transitions: i16,
    /// Added when the board is empty after a clear.
    pub perfect_clear: i16,
}

impl AiDifficulty {
    /// The time in milliseconds that the opponent thinks before it moves.
    pub open spec fn spec_think_millis(self) -> u64 {
        match self {
            AiDifficulty::Easy => 800,
            AiDifficulty::Medium => 400,
            AiDifficulty::Hard => 150,
            AiDifficulty::Expert => 50,
        }
    }

    /// The moves per second of the opponent.
    pub open spec fn spec_move_speed(self) -> u32 {
        match self {
            AiDifficulty::Easy => 3,
            AiDifficulty::Medium => 6,
            AiDifficulty::Hard => 15,
            AiDifficulty::Expert => 30,
        }
    }

    /// The chance in percent that the opponent picks a worse placement.
    pub open spec fn spec_error_rate(self) -> u32 {
        match self {
            AiDifficulty::Easy => 15,
            AiDifficulty::Medium => 5,
            AiDifficulty::Hard => 1,
            AiDifficulty::Expert => 0,
        }
    }

    /// Whether the opponent uses the hold slot.
    pub open spec fn spec_uses_hold(self) -> bool {
        !(self is Easy)
    }

    /// The evaluation weights of the preset.
    pub open spec fn spec_weights(self) -> EvalWeights {
        match self {
            AiDifficulty::Easy => EvalWeights {
                aggregate_height: -30i16,
                holes: -25i16,
                bumpiness: -10i16,
                lines_cleared: 50,
                wells: 5,
                column_transitions: -5i16,
                row_transitions: -3i16,
                perfect_clear: 200,
            },
            AiDifficulty::Medium => EvalWeights {
                aggregate_height: -45i16,
                holes: -35i16,
                bumpiness: -15i16,
                lines_cleared: 65,
                wells: 8,
                column_transitions: -8i16,
                row_transitions: -4i16,
                perfect_clear: 400,
            },
            AiDifficulty::Hard => EvalWeights {
                aggregate_height: -51i16,
                holes: -36i16,
                bumpiness: -18i16,
                lines_cleared: 76,
                wells: 10,
                column_transitions: -10i16,
                row_transitions: -5i16,
                perfect_clear: 500,
            },
            AiDifficulty::Expert => EvalWeights {
                aggregate_height: -51i16,
                holes: -36i16,
                bumpiness: -18i16,
                lines_cleared: 76,
                wells: 12,
                column_transitions: -12i16,
                row_transitions: -6i16,
                perfect_clear: 600,
            },
        }
    }

    /// The name of the preset.
    pub fn name(self) -> (name: &'static str)
        ensures
            name == match self {
                AiDifficulty::Easy => "Easy",
                AiDifficulty::Medium => "Medium",
                AiDifficulty::Hard => "Hard",
                AiDifficulty::Expert => "Expert",
            },
    {
        match self {
            AiDifficulty::Easy => "Easy",
            AiDifficulty::Medium => "Medium",
            AiDifficulty::Hard => "Hard",
            AiDifficulty::Expert => "Expert",
        }
    }

    /// One line on how the preset plays.
    pub fn description(self) -> (text: &'static str)
        ensures
            text == match self {
                AiDifficulty::Easy => "Slow, makes mistakes, sends little garbage",
                AiDifficulty::Medium => "Moderate speed, decent play",
                AiDifficulty::Hard => "Fast, efficient, aggressive garbage",
                AiDifficulty::Expert => "Relentless, near-optimal play",
            },
    {
        match self {
            AiDifficulty::Easy => "Slow, makes mistakes, sends little garbage",
            AiDifficulty::Medium => "Moderate speed, decent play",
            AiDifficulty::Hard => "Fast, efficient, aggressive garbage",
            AiDifficulty::Expert => "Relentless, near-optimal play",
        }
    }

    /// The time that the opponent thinks before it starts to move a piece.
    pub fn think_time(self) -> (time: Duration)
        ensures
            time@ == self.spec_think_millis() * 1_000_000,
    {
        match self {
            AiDifficulty::Easy => Duration::from_millis(800),
            AiDifficulty::Medium => Duration::from_millis(400),
            AiDifficulty::Hard => Duration::from_millis(150),
            AiDifficulty::Expert => Duration::from_millis(50),
        }
    }

    /// How many moves per second the opponent makes.
    #[verifier::when_used_as_spec(spec_move_speed)]
    pub fn move_speed(self) -> (speed: u32)
        ensures
            speed == self.spec_move_speed(),
            speed > 0,
    {
        match self {
            AiDifficulty::Easy => 3,
            AiDifficulty::Medium => 6,
            AiDifficulty::Hard => 15,
            AiDifficulty::Expert => 30,
        }
    }

    /// The chance, in percent, that the opponent picks a worse placement
    /// than the best one it found.
    #[verifier::when_used_as_spec(spec_error_rate)]
    pub fn error_rate(self) -> (percent: u32)
        ensures
            percent == self.spec_error_rate(),
            percent <= 100,
    {
        match self {
            AiDifficulty::Easy => 15,
            AiDifficulty::Medium => 5,
            AiDifficulty::Hard => 1,
            AiDifficulty::Expert => 0,
        }
    }

    /// Whether the opponent uses the hold slot.
    #[verifier::when_used_as_spec(spec_uses_hold)]
    pub fn uses_hold(self) -> (uses: bool)
        ensures
            uses == self.spec_uses_hold(),
    {
        match self {
            AiDifficulty::Easy => false,
            _ => true,
        }
    }

    /// The evaluation weights of the preset.
    #[verifier::when_used_as_spec(spec_weights)]
    pub fn weights(self) -> (weights: EvalWeights)
        ensures
            weights == self.spec_weights(),
    {
        match self {
            AiDifficulty::Easy => EvalWeights {
                aggregate_height: -30,
                holes: -25,
                bumpiness: -10,
                lines_cleared: 50,
                wells: 5,
                column_transitions: -5,
                row_transitions: -3,
                perfect_clear: 200,
            },
            AiDifficulty::Medium => EvalWeights {
                aggregate_height: -45,
                holes: -35,
                bumpiness: -15,
                lines_cleared: 65,
                wells: 8,
                column_transitions: -8,
                row_transitions: -4,
                perfect_clear: 400,
            },
            AiDifficulty::Hard => EvalWeights {
                aggregate_height: -51,
                holes: -36,
                bumpiness: -18,
                lines_cleared: 76,
                wells: 10,
                column_transitions: -10,
                row_transitions: -5,
                perfect_clear: 500,
            },
            AiDifficulty::Expert => EvalWeights {
                aggregate_height: -51,
                holes: -36,
                bumpiness: -18,
                lines_cleared: 76,
                wells: 12,
                column_transitions: -12,
                row_transitions: -6,
                perfect_clear: 600,
            },
        }
    }
}

} // verus!
