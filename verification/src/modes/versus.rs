//! The game against the computer: an opponent plays a board of its own, and
//! what either side sends arrives on the other side as garbage.

use vstd::prelude::*;
use super::{GameMode, GameResult, ResultView};
use crate::ai::difficulty::AiDifficulty;
use crate::ai::AiPlayer;
use crate::game::garbage::GarbageBatch;
use crate::game::model::GameView;
use crate::game::{GameAction, GameState};
use crate::text::{decimal, push_decimal, push_str, string_from_chars};
use crate::time::Duration;

verus! {

/// The game against the computer.
#[derive(Debug)]
pub struct VersusMode {
    pub ai: AiPlayer,
    /// The board that the opponent plays.
    pub ai_game: GameState,
    pub difficulty: AiDifficulty,
}

/// The name of a preset, as text.
pub open spec fn difficulty_name(difficulty: AiDifficulty) -> Seq<char> {
    match difficulty {
        AiDifficulty::Easy => "Easy"@,
        AiDifficulty::Medium => "Medium"@,
        AiDifficulty::Hard => "Hard"@,
        AiDifficulty::Expert => "Expert"@,
    }
}

/// The attack that was sent since the count stood at `last`.
pub open spec fn sent_since(now: u32, last: u32) -> u32 {
    if now >= last {
        (now - last) as u32
    } else {
        0
    }
}

/// A garbage queue after `lines` lines are queued with the given travel
/// time; no lines queue nothing.
pub open spec fn queued(q: Seq<GarbageBatch>, lines: u32, travel: Duration) -> Seq<GarbageBatch> {
    if lines > 0 {
        q.push(GarbageBatch { lines, time_remaining: travel })
    } else {
        q
    }
}

/// Whether the counters and clocks of the opponent and of its game have
/// room for the opponent's turn in a step of `dt`.
pub open spec fn has_room(ai: AiPlayer, game: GameView, dt: Duration) -> bool {
    &&& game.within_limits()
    &&& game.time_fits(dt)
    &&& ai.move_accumulator.nanos + dt.nanos <= u128::MAX
}

/// Whether the opponent's turn in a step of `dt` can lead from a state of
/// the opponent and its game to another, with `stepped` telling whether the
/// turn was taken to its end.
///
/// A game that is over takes no turn: nothing changes, and that counts as
/// taken. Where room is missing at the outset the turn is refused and
/// nothing changes. Otherwise the opponent thinks, and the action it decides
/// on, if any, and then the step are taken by its game as far as there is
/// room.
pub open spec fn takes_turn(
    ai: AiPlayer,
    game: GameView,
    dt: Duration,
    stepped: bool,
    next_ai: AiPlayer,
    next_game: GameView,
) -> bool {
    if game.game_over {
        stepped && next_ai == ai && next_game == game
    } else if !has_room(ai, game, dt) {
        !stepped && next_ai == ai && next_game == game
    } else {
        exists|actions: Seq<GameAction>|
            #[trigger] ai.thinks(game, dt, next_ai, actions) && actions.len() <= 1
                && game.advances_to(actions, dt, stepped, next_game)
    }
}

/// The opponent's game with what the player has sent since the count stood
/// at `last` queued as garbage.
pub open spec fn with_attack_queued(game: GameView, sent: u32, last: u32) -> GameView {
    GameView {
        garbage: queued(game.garbage, sent_since(sent, last), game.garbage_settings.0),
        ..game
    }
}

/// Whether the player has won: the opponent's game is over and the player's is not.
pub open spec fn player_won(player_over: bool, ai_over: bool) -> bool {
    ai_over && !player_over
}

impl VersusMode {
    /// The line that tells attack sent and garbage received.
    pub open spec fn tally(game: GameState) -> Seq<char> {
        "ATK: "@ + decimal(game.stats.attack_sent as nat) + " | DMG: "@ + decimal(
            game.stats.garbage_received as nat,
        )
    }

    /// The summary of a run that ended with the given state of the player's game.
    pub open spec fn result(self, game: GameState) -> ResultView {
        let won = player_won(game.game_over, self.ai_game.game_over);
        ResultView {
            mode_name: "Versus AI ("@ + difficulty_name(self.difficulty) + ")"@,
            primary_label: if won {
                "VICTORY"@
            } else {
                "DEFEAT"@
            },
            primary_value: Self::tally(game),
            is_new_high_score: false,
            stats: game.stats,
            won: Some(won),
        }
    }

    /// Whether the counters and clocks of the opponent and its game have
    /// room for a step of `dt`.
    pub open spec fn has_room(self, dt: Duration) -> bool {
        has_room(self.ai, self.ai_game@, dt)
    }

    /// A game against an opponent of the given strength; the opponent's
    /// game is not started yet.
    pub fn new(difficulty: AiDifficulty) -> (mode: VersusMode)
        ensures
            mode.ai == AiPlayer::spec_new(difficulty),
            mode.difficulty == difficulty,
            !mode.ai_game.started,
    {
        VersusMode { ai: AiPlayer::new(difficulty), ai_game: GameState::new(), difficulty }
    }

    /// Lets the opponent's game take in what the player has sent since
    /// `last_player_attack` was taken, lets the opponent take its turn for
    /// `dt`, and lets the player's game take in what the opponent has sent
    /// since it was last asked. Attack arrives on the other side as one
    /// batch of garbage, in the same call, whether or not the opponent takes
    /// its turn to the end. Returns the player's attack count, to be handed
    /// in next time, and whether the opponent took its turn to the end.
    pub fn exchange(
        &mut self,
        game: &mut GameState,
        last_player_attack: u32,
        dt: Duration,
    ) -> (result: (u32, bool))
        ensures
            final(self).difficulty == old(self).difficulty,
            result.0 == old(game).stats.attack_sent,
            final(self).ai.last_attack_sent == final(self).ai_game.stats.attack_sent,
            final(game)@ == with_attack_queued(
                old(game)@,
                final(self).ai_game.stats.attack_sent,
                old(self).ai.last_attack_sent,
            ),
            takes_turn(
                old(self).ai,
                with_attack_queued(
                    old(self).ai_game@,
                    old(game).stats.attack_sent,
                    last_player_attack,
                ),
                dt,
                result.1,
                AiPlayer { last_attack_sent: old(self).ai.last_attack_sent, ..final(self).ai },
                final(self).ai_game@,
            ),
    {
        let current_player_attack = game.stats.attack_sent;
        let player_delta = if current_player_attack >= last_player_attack {
            current_player_attack - last_player_attack
        } else {
            0
        };
        if player_delta > 0 {
            self.ai_game.garbage.add(player_delta);
        }
        assert(self.ai_game@ == with_attack_queued(
            old(self).ai_game@,
            old(game).stats.attack_sent,
            last_player_attack,
        ));
        let stepped = self.update_ai(dt);
        let ai_attack = self.ai.check_attack(&self.ai_game);
        if ai_attack > 0 {
            game.garbage.add(ai_attack);
        }
        (current_player_attack, stepped)
    }

    /// Lets the opponent take its turn for a step of `dt`: it thinks, and
    /// its game takes the action it decides on and then the step. A game
    /// that is over takes no turn. Returns whether the turn was taken to its
    /// end; it is not where a counter or clock of the opponent or its game
    /// has no room left, and then nothing is taken from that point on.
    pub fn update_ai(&mut self, dt: Duration) -> (stepped: bool)
        ensures
            final(self).difficulty == old(self).difficulty,
            final(self).ai.last_attack_sent == old(self).ai.last_attack_sent,
            takes_turn(
                old(self).ai,
                old(self).ai_game@,
                dt,
                stepped,
                final(self).ai,
                final(self).ai_game@,
            ),
    {
        if self.ai_game.game_over {
            return true;
        }
        if !self.ai_game.can_update(dt) || dt.nanos > u128::MAX - self.ai.move_accumulator.nanos {
            return false;
        }
        let actions = self.ai.think(&self.ai_game, dt);
        self.ai_game.advance(actions.as_slice(), dt)
    }

    /// Drains the events of the opponent's game and returns the attack it
    /// has sent so far.
    pub fn drain_ai_attack(&mut self) -> (sent: u32)
        ensures
            sent == old(self).ai_game.stats.attack_sent,
            final(self).ai_game@ == (GameView { events: Seq::empty(), ..old(self).ai_game@ }),
            final(self).ai == old(self).ai,
            final(self).difficulty == old(self).difficulty,
    {
        let _events = self.ai_game.drain_events();
        self.ai_game.stats.attack_sent
    }

    /// The name of the mode with the opponent's strength.
    fn title(&self) -> (text: String)
        ensures
            text@ == "Versus AI ("@ + difficulty_name(self.difficulty) + ")"@,
    {
        let mut out: Vec<char> = Vec::new();
        push_str(&mut out, "Versus AI (");
        push_str(&mut out, self.difficulty.name());
        push_str(&mut out, ")");
        assert(out@ =~= "Versus AI ("@ + difficulty_name(self.difficulty) + ")"@);
        string_from_chars(out)
    }
}

impl GameMode for VersusMode {
    fn name(&self) -> (name: &str)
        ensures
            name == "VERSUS",
    {
        "VERSUS"
    }

    /// Starts the opponent's game over, as a game is started, and gives the
    /// opponent a fresh controller. The player's game is left alone.
    fn on_start(&mut self, game: &mut GameState)
        ensures
            *final(game) == *old(game),
            old(self).ai_game@.starts_to(final(self).ai_game@),
            final(self).ai == AiPlayer::spec_new(old(self).difficulty),
            final(self).difficulty == old(self).difficulty,
    {
        self.ai_game.start();
        self.ai = AiPlayer::new(self.difficulty);
    }

    fn on_update(&mut self, game: &mut GameState)
        ensures
            *final(game) == *old(game),
            *final(self) == *old(self),
    {
    }

    /// The run is complete once either game is over; the player has won if
    /// only the opponent's is.
    fn check_complete(&self, game: &GameState) -> (result: Option<GameResult>)
        ensures
            result is Some <==> game.game_over || self.ai_game.game_over,
            result matches Some(r) ==> r@ == self.result(*game),
    {
        let player_dead = game.game_over;
        let ai_dead = self.ai_game.game_over;
        if player_dead || ai_dead {
            let won = ai_dead && !player_dead;
            let mut value: Vec<char> = Vec::new();
            push_str(&mut value, "ATK: ");
            push_decimal(&mut value, game.stats.attack_sent as u128);
            push_str(&mut value, " | DMG: ");
            push_decimal(&mut value, game.stats.garbage_received as u128);
            assert(value@ =~= VersusMode::tally(*game));
            Some(
                GameResult {
                    mode_name: self.title(),
                    primary_label: if won {
                        "VICTORY".to_owned()
                    } else {
                        "DEFEAT".to_owned()
                    },
                    primary_value: string_from_chars(value),
                    is_new_high_score: false,
                    stats: game.stats,
                    won: Some(won),
                },
            )
        } else {
            None
        }
    }

    /// Attack sent and garbage received, in short.
    fn info_text(&self, game: &GameState) -> (text: Option<String>)
        ensures
            text matches Some(t) && t@ == "ATK:"@ + decimal(game.stats.attack_sent as nat)
                + " RCV:"@ + decimal(game.stats.garbage_received as nat),
    {
        let mut out: Vec<char> = Vec::new();
        push_str(&mut out, "ATK:");
        push_decimal(&mut out, game.stats.attack_sent as u128);
        push_str(&mut out, " RCV:");
        push_decimal(&mut out, game.stats.garbage_received as u128);
        assert(out@ =~= "ATK:"@ + decimal(game.stats.attack_sent as nat) + " RCV:"@ + decimal(
            game.stats.garbage_received as nat,
        ));
        Some(string_from_chars(out))
    }
}

} // verus!
