//! The endless marathon: play until the stack reaches the top.

use vstd::prelude::*;
use super::{GameMode, GameResult, ResultView};
use crate::game::GameState;
use crate::text::{format_number, grouped};

verus! {

/// The endless marathon.
#[derive(Debug, Clone, Copy, PartialEq, Eq, Structural)]
pub struct EndlessMode;

impl EndlessMode {
    pub fn new() -> (mode: EndlessMode) {
        EndlessMode
    }

    /// The summary of a run that ended with the given state.
    pub open spec fn result(game: GameState) -> ResultView {
        ResultView {
            mode_name: "Endless Marathon"@,
            primary_label: "SCORE"@,
            primary_value: grouped(game.scoring.score as nat),
            is_new_high_score: false,
            stats: game.stats,
            won: None,
        }
    }
}

impl GameMode for EndlessMode {
    fn name(&self) -> (name: &str)
        ensures
            name == "ENDLESS",
    {
        "ENDLESS"
    }

    fn on_start(&mut self, game: &mut GameState)
        ensures
            *final(game) == *old(game),
    {
    }

    fn on_update(&mut self, game: &mut GameState)
        ensures
            *final(game) == *old(game),
    {
    }

    /// The run is complete once the game is over.
    fn check_complete(&self, game: &GameState) -> (result: Option<GameResult>)
        ensures
            result is Some <==> game.game_over,
            result matches Some(r) ==> r@ == EndlessMode::result(*game),
    {
        if game.game_over {
            Some(
                GameResult {
                    mode_name: "Endless Marathon".to_owned(),
                    primary_label: "SCORE".to_owned(),
                    primary_value: format_number(game.scoring.score),
                    is_new_high_score: false,
                    stats: game.stats,
                    won: None,
                },
            )
        } else {
            None
        }
    }

    fn info_text(&self, game: &GameState) -> (text: Option<String>)
        ensures
            text is None,
    {
        None
    }
}

} // verus!
