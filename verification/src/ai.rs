//! The opponent: a search over placements and a controller that turns the
//! placement it picked into the actions that a player would take.

pub mod difficulty;
pub mod evaluator;
pub mod placement;

use vstd::prelude::*;
use self::difficulty::AiDifficulty;
use self::placement::{
    best_placement, find_best_placement, generate_placements, placements_of, Placement,
};
use crate::game::board::Grid;
use crate::game::piece::{Piece, PieceType, RotationState};
use crate::game::model::GameView;
use crate::game::{GameAction, GameState};
use crate::rng;
use crate::time::Duration;

verus! {

/// The most placements among which a mistake picks: the best one, which a
/// mistake never picks, and the four after it.
pub const MISTAKE_RANGE: usize = 5;

/// The time in nanoseconds between two moves of the opponent.
pub open spec fn move_interval_nanos(difficulty: AiDifficulty) -> int {
    1_000_000_000int / (difficulty.spec_move_speed() as int)
}

/// The action that turns a piece towards `target` by the shortest way: a
/// half turn if the target is opposite, else the quarter turn that gets there.
pub open spec fn rotation_action(current: RotationState, target: RotationState) -> GameAction {
    if current.turned(2) == target {
        GameAction::Rotate180
    } else if current.turned(1) == target {
        GameAction::RotateCW
    } else {
        GameAction::RotateCCW
    }
}

/// Whether the opponent may aim at `pick`: it is the best placement, or, if
/// the opponent makes mistakes at all, one of the up to four placements of
/// the piece in play that rank right behind the best of them.
pub open spec fn may_pick(
    g: Grid,
    piece_type: PieceType,
    hold_type: Option<PieceType>,
    difficulty: AiDifficulty,
    pick: Option<Placement>,
) -> bool {
    let best = best_placement(
        g,
        piece_type,
        hold_type,
        difficulty.spec_weights(),
        difficulty.spec_uses_hold(),
    );
    let own = placements_of(g, piece_type, difficulty.spec_weights(), false);
    pick == best || (difficulty.spec_error_rate() > 0 && best is Some && exists|i: int|
        1 <= i < own.len() && i < MISTAKE_RANGE && pick == Some(#[trigger] own[i]))
}

/// The opponent's controller.
///
/// It thinks for a while, then turns the piece to the orientation of its
/// target, then moves it to the column of its target, then drops it.
#[derive(Debug, Clone, Copy, PartialEq, Eq, Structural)]
pub struct AiPlayer {
    pub difficulty: AiDifficulty,
    /// The placement that the opponent aims at.
    pub target: Option<Placement>,
    /// Time left to think before the first move.
    pub think_timer: Duration,
    /// Time gathered towards the next move.
    pub move_accumulator: Duration,
    pub moving: bool,
    /// The attack that the opponent's game had sent when it was last asked.
    pub last_attack_sent: u32,
}

impl AiPlayer {
    /// A controller that has no target yet.
    pub open spec fn spec_new(difficulty: AiDifficulty) -> AiPlayer {
        AiPlayer {
            difficulty,
            target: None,
            think_timer: Duration { nanos: 0 },
            move_accumulator: Duration { nanos: 0 },
            moving: false,
            last_attack_sent: 0,
        }
    }

    /// The controller after it has picked `target`: it starts to think.
    pub open spec fn with_target(self, target: Option<Placement>) -> AiPlayer {
        AiPlayer {
            target,
            think_timer: Duration {
                nanos: (self.difficulty.spec_think_millis() * 1_000_000) as u128,
            },
            moving: false,
            move_accumulator: Duration { nanos: 0 },
            ..self
        }
    }

    /// The controller after one step of `dt` with a target picked, for a
    /// game whose piece in play is `piece`.
    pub open spec fn after_step(self, piece: Piece, hold_used: bool, dt: Duration) -> AiPlayer {
        if self.think_timer.nanos > 0 {
            AiPlayer {
                think_timer: Duration {
                    nanos: if self.think_timer.nanos >= dt.nanos {
                        (self.think_timer.nanos - dt.nanos) as u128
                    } else {
                        0
                    },
                },
                ..self
            }
        } else {
            match self.target {
                None => self,
                Some(target) => if target.use_hold && !hold_used {
                    AiPlayer { target: None, ..self }
                } else {
                    let gathered = self.move_accumulator.nanos + dt.nanos;
                    if gathered < move_interval_nanos(self.difficulty) {
                        AiPlayer { move_accumulator: Duration { nanos: gathered as u128 }, ..self }
                    } else {
                        let moved = AiPlayer {
                            move_accumulator: Duration {
                                nanos: (gathered - move_interval_nanos(self.difficulty)) as u128,
                            },
                            ..self
                        };
                        if piece.rotation != target.rotation || piece.x != target.x {
                            moved
                        } else {
                            AiPlayer { target: None, ..moved }
                        }
                    }
                },
            }
        }
    }

    /// The actions of one step of `dt` with a target picked. While it
    /// thinks, and while the time for the next move has not come, the
    /// opponent does nothing. Without a target it drops the piece. A target
    /// that needs the held shape makes it hold. Otherwise it turns, then
    /// moves, then drops, one action per step.
    pub open spec fn step_actions(self, piece: Piece, hold_used: bool, dt: Duration) -> Seq<
        GameAction,
    > {
        if self.think_timer.nanos > 0 {
            seq![]
        } else {
            match self.target {
                None => seq![GameAction::HardDrop],
                Some(target) => if target.use_hold && !hold_used {
                    seq![GameAction::Hold]
                } else if self.move_accumulator.nanos + dt.nanos < move_interval_nanos(
                    self.difficulty,
                ) {
                    seq![]
                } else if piece.rotation != target.rotation {
                    seq![rotation_action(piece.rotation, target.rotation)]
                } else if piece.x != target.x {
                    if piece.x < target.x {
                        seq![GameAction::MoveRight]
                    } else {
                        seq![GameAction::MoveLeft]
                    }
                } else {
                    seq![GameAction::HardDrop]
                },
            }
        }
    }

    /// Whether a step of `dt` on `game` can leave the controller as `next`
    /// with `actions` to take. With no piece in play or the game over the
    /// controller drops its target and does nothing. With a target it takes
    /// one step towards it. Without one it first picks a target that it may
    /// pick, and then takes the step.
    pub open spec fn thinks(
        self,
        game: GameView,
        dt: Duration,
        next: AiPlayer,
        actions: Seq<GameAction>,
    ) -> bool {
        match game.current_piece {
            Some(piece) => if game.game_over {
                actions.len() == 0 && next == (AiPlayer { target: None, ..self })
            } else if self.target is Some {
                next == self.after_step(piece, game.hold.used_this_turn, dt) && actions
                    == self.step_actions(piece, game.hold.used_this_turn, dt)
            } else {
                exists|pick: Option<Placement>|
                    {
                        &&& may_pick(
                            game.board,
                            piece.piece_type,
                            game.hold.piece,
                            self.difficulty,
                            pick,
                        )
                        &&& next == (#[trigger] self.with_target(pick)).after_step(
                            piece,
                            game.hold.used_this_turn,
                            dt,
                        )
                        &&& actions == self.with_target(pick).step_actions(
                            piece,
                            game.hold.used_this_turn,
                            dt,
                        )
                    }
            },
            None => actions.len() == 0 && next == (AiPlayer { target: None, ..self }),
        }
    }

    /// A controller of the given strength that has no target yet.
    pub fn new(difficulty: AiDifficulty) -> (ai: AiPlayer)
        ensures
            ai == Self::spec_new(difficulty),
    {
        AiPlayer {
            difficulty,
            target: None,
            think_timer: Duration::zero(),
            move_accumulator: Duration::zero(),
            moving: false,
            last_attack_sent: 0,
        }
    }

    /// Decides what the opponent does in a step of `dt`. With no piece in
    /// play or the game over it drops its target and does nothing. Without
    /// a target it first picks one: the best placement, or by mistake one of
    /// the next best. Then it takes one step towards the target.
    pub fn think(&mut self, game: &GameState, dt: Duration) -> (actions: Vec<GameAction>)
        requires
            old(self).move_accumulator.nanos + dt.nanos <= u128::MAX,
        ensures
            old(self).thinks(game@, dt, *final(self), actions@),
            actions@.len() <= 1,
    {
        let piece = match game.current_piece {
            Some(piece) => piece,
            None => {
                self.target = None;
                return Vec::new();
            },
        };
        if game.game_over {
            self.target = None;
            return Vec::new();
        }
        if self.target.is_none() {
            let weights = self.difficulty.weights();
            let mut best = find_best_placement(
                &game.board,
                piece.piece_type,
                game.hold.piece,
                &weights,
                self.difficulty.uses_hold(),
            );
            if best.is_some() {
                let mut rng = rng::thread_rng();
                if rng::gen_ratio(&mut rng, self.difficulty.error_rate(), 100) {
                    let placements = generate_placements(
                        &game.board,
                        piece.piece_type,
                        &weights,
                        false,
                    );
                    if placements.len() > 1 {
                        let end = if placements.len() < MISTAKE_RANGE {
                            placements.len()
                        } else {
                            MISTAKE_RANGE
                        };
                        let idx = rng::gen_range(&mut rng, 1, end);
                        best = Some(placements[idx]);
                    }
                }
            }
            self.set_target(best);
            assert(may_pick(
                game.board@,
                piece.piece_type,
                game.hold.piece,
                old(self).difficulty,
                best,
            ));
        }
        self.step(&piece, game.hold.used_this_turn, dt)
    }

    /// Takes `target` as the placement to aim at and starts to think.
    pub fn set_target(&mut self, target: Option<Placement>)
        ensures
            *final(self) == old(self).with_target(target),
    {
        self.target = target;
        self.think_timer = self.difficulty.think_time();
        self.moving = false;
        self.move_accumulator = Duration::zero();
    }

    /// Takes one step of `dt` towards the target, for a game whose piece in
    /// play is `piece` and whose hold slot was used or not, and returns the
    /// actions to take.
    pub fn step(&mut self, piece: &Piece, hold_used: bool, dt: Duration) -> (actions: Vec<
        GameAction,
    >)
        requires
            old(self).move_accumulator.nanos + dt.nanos <= u128::MAX,
        ensures
            *final(self) == old(self).after_step(*piece, hold_used, dt),
            actions@ == old(self).step_actions(*piece, hold_used, dt),
    {
        let mut actions: Vec<GameAction> = Vec::new();
        if !self.think_timer.is_zero() {
            self.think_timer = self.think_timer.saturating_sub(dt);
            return actions;
        }
        let target = match self.target {
            Some(t) => t,
            None => {
                actions.push(GameAction::HardDrop);
                return actions;
            },
        };
        if target.use_hold && !hold_used {
            self.target = None;
            actions.push(GameAction::Hold);
            return actions;
        }
        let move_interval = Duration::from_nanos(
            1_000_000_000 / (self.difficulty.move_speed() as u128),
        );
        self.move_accumulator = Duration::from_nanos(self.move_accumulator.nanos + dt.nanos);
        if self.move_accumulator.nanos < move_interval.nanos {
            return actions;
        }
        self.move_accumulator = Duration::from_nanos(
            self.move_accumulator.nanos - move_interval.nanos,
        );

        if piece.rotation != target.rotation {
            let target_rot = target.rotation;
            let current_rot = piece.rotation;
            let cw_dist = (target_rot.index() + 4 - current_rot.index()) % 4;
            let ccw_dist = (current_rot.index() + 4 - target_rot.index()) % 4;
            if cw_dist == 2 {
                actions.push(GameAction::Rotate180);
            } else if cw_dist <= ccw_dist {
                actions.push(GameAction::RotateCW);
            } else {
                actions.push(GameAction::RotateCCW);
            }
            return actions;
        }
        if piece.x != target.x {
            if piece.x < target.x {
                actions.push(GameAction::MoveRight);
            } else {
                actions.push(GameAction::MoveLeft);
            }
            return actions;
        }
        actions.push(GameAction::HardDrop);
        self.target = None;
        actions
    }

    /// The attack that the opponent's game has sent since this was last asked.
    pub fn check_attack(&mut self, game: &GameState) -> (delta: u32)
        ensures
            delta == if game.stats.attack_sent >= old(self).last_attack_sent {
                game.stats.attack_sent - old(self).last_attack_sent
            } else {
                0
            },
            *final(self) == (AiPlayer { last_attack_sent: game.stats.attack_sent, ..*old(self) }),
    {
        let current = game.stats.attack_sent;
        let delta = if current >= self.last_attack_sent {
            current - self.last_attack_sent
        } else {
            0
        };
        self.last_attack_sent = current;
        delta
    }

    /// Forgets the target and the attack count for a new game.
    pub fn reset(&mut self)
        ensures
            *final(self) == Self::spec_new(old(self).difficulty),
    {
        self.target = None;
        self.think_timer = Duration::zero();
        self.move_accumulator = Duration::zero();
        self.moving = false;
        self.last_attack_sent = 0;
    }
}

} // verus!
