//! Game modes: what a run is played for and when it is complete.

pub mod endless;
pub mod sprint;
pub mod versus;

use vstd::prelude::*;
use crate::game::stats::Stats;
use crate::game::GameState;

verus! {

/// The summary of a run that is complete.
#[derive(Debug, Clone)]
pub struct GameResult {
    pub mode_name: String,
    pub primary_label: String,
    pub primary_value: String,
    pub is_new_high_score: bool,
    pub stats: Stats,
    /// Whether the player won, where there is an opponent.
    pub won: Option<bool>,
}

/// What a `GameResult` stands for.
pub struct ResultView {
    pub mode_name: Seq<char>,
    pub primary_label: Seq<char>,
    pub primary_value: Seq<char>,
    pub is_new_high_score: bool,
    pub stats: Stats,
    pub won: Option<bool>,
}

impl View for GameResult {
    type V = ResultView;

    open spec fn view(&self) -> ResultView {
        ResultView {
            mode_name: self.mode_name@,
            primary_label: self.primary_label@,
            primary_value: self.primary_value@,
            is_new_high_score: self.is_new_high_score,
            stats: self.stats,
            won: self.won,
        }
    }
}

/// A game mode: it is told when a run starts and when it is stepped, and
/// says when the run is complete and with what summary.
pub trait GameMode {
    /// The name of the mode.
    fn name(&self) -> &str;

    /// Called when a run starts.
    fn on_start(&mut self, game: &mut GameState);

    /// Called on every step of a run.
    fn on_update(&mut self, game: &mut GameState);

    /// The summary of the run if it is complete.
    fn check_complete(&self, game: &GameState) -> Option<GameResult>;

    /// A line on how the run stands, if the mode has one to show.
    fn info_text(&self, game: &GameState) -> Option<String>;
}

} // verus!
