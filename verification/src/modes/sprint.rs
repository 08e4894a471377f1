//! The sprint: clear a number of lines as fast as possible.

use vstd::prelude::*;
use super::{GameMode, GameResult, ResultView};
use crate::game::GameState;
use crate::text::{clock_text, decimal, push_decimal, push_str, string_from_chars};

verus! {

/// The lines that a sprint is played for.
pub const SPRINT_LINES: u32 = 40;

/// The sprint.
#[derive(Debug, Clone, Copy, PartialEq, Eq, Structural)]
pub struct SprintMode {
    pub target_lines: u32,
}

impl SprintMode {
    /// A sprint over forty lines.
    pub fn new() -> (mode: SprintMode)
        ensures
            mode.target_lines == SPRINT_LINES,
    {
        SprintMode { target_lines: SPRINT_LINES }
    }

    /// Whether a run in the given state is complete: the game is over or the
    /// lines are cleared.
    pub open spec fn is_complete(self, game: GameState) -> bool {
        game.game_over || game.scoring.lines_cleared >= self.target_lines
    }

    /// The lines that are left to clear.
    pub open spec fn lines_left(self, game: GameState) -> nat {
        if game.scoring.lines_cleared >= self.target_lines {
            0
        } else {
            (self.target_lines - game.scoring.lines_cleared) as nat
        }
    }

    /// The summary of a run that ended with the given state.
    pub open spec fn result(self, game: GameState) -> ResultView {
        ResultView {
            mode_name: decimal(self.target_lines as nat) + "-Line Sprint"@,
            primary_label: "TIME"@,
            primary_value: clock_text(game.stats.time@ / 1_000_000),
            is_new_high_score: false,
            stats: game.stats,
            won: None,
        }
    }

    /// The name of the mode with its number of lines.
    fn title(&self) -> (text: String)
        ensures
            text@ == decimal(self.target_lines as nat) + "-Line Sprint"@,
    {
        let mut out: Vec<char> = Vec::new();
        push_decimal(&mut out, self.target_lines as u128);
        push_str(&mut out, "-Line Sprint");
        assert(out@ =~= decimal(self.target_lines as nat) + "-Line Sprint"@);
        string_from_chars(out)
    }
}

impl GameMode for SprintMode {
    fn name(&self) -> (name: &str)
        ensures
            name == "SPRINT",
    {
        "SPRINT"
    }

    fn on_start(&mut self, game: &mut GameState)
        ensures
            *final(game) == *old(game),
            *final(self) == *old(self),
    {
    }

    fn on_update(&mut self, game: &mut GameState)
        ensures
            *final(game) == *old(game),
            *final(self) == *old(self),
    {
    }

    /// The run is complete once the game is over or the lines are cleared.
    fn check_complete(&self, game: &GameState) -> (result: Option<GameResult>)
        ensures
            result is Some <==> self.is_complete(*game),
            result matches Some(r) ==> r@ == self.result(*game),
    {
        if game.game_over || game.scoring.lines_cleared >= self.target_lines {
            Some(
                GameResult {
                    mode_name: self.title(),
                    primary_label: "TIME".to_owned(),
                    primary_value: game.stats.format_time(),
                    is_new_high_score: false,
                    stats: game.stats,
                    won: None,
                },
            )
        } else {
            None
        }
    }

    /// The number of lines that are left to clear.
    fn info_text(&self, game: &GameState) -> (text: Option<String>)
        ensures
            text matches Some(t) && t@ == decimal(self.lines_left(*game)) + " lines left"@,
    {
        let remaining = if game.scoring.lines_cleared >= self.target_lines {
            0
        } else {
            self.target_lines - game.scoring.lines_cleared
        };
        let mut out: Vec<char> = Vec::new();
        push_decimal(&mut out, remaining as u128);
        push_str(&mut out, " lines left");
        assert(out@ =~= decimal(self.lines_left(*game)) + " lines left"@);
        Some(string_from_chars(out))
    }
}

} // verus!
