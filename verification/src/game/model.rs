//! The game as a mathematical state machine.
//!
//! `GameView` is what a `GameState` stands for, and the functions on it say
//! what each action and each step of time does. Two things are left open by
//! them, because chance decides them: which bag follows when the preview is
//! extended, and in which columns arriving garbage has its gaps.

use vstd::prelude::*;
use super::board::{
    full_rows, garbage_rows_among, grid_add_garbage, grid_clear, grid_is_empty, grid_lock,
    piece_fits_grid, rotation_kick, Grid, BOARD_WIDTH, VISIBLE_HEIGHT,
};
use super::clear::{ClearType, SpinType};
use super::garbage::{arrived, cancelled, leftover, total_lines, travelling, GarbageBatch};
use super::gravity::{drops_due, Gravity};
use super::hold::Hold;
use super::locking::LockDelay;
use super::movement::{can_shift, grounded, landing_y, rotated, shifted, spec_detect_spin};
use super::piece::{Piece, PieceType, RotationState, SPAWN_X, SPAWN_Y};
use super::scoring::Scoring;
use super::stats::Stats;
use super::{GameAction, TickResult};
use crate::time::Duration;

verus! {

/// Nanoseconds for which the name of a clear is shown.
pub const ACTION_TEXT_NANOS: u128 = 2_000_000_000;

/// What a `GameEvent` stands for.
pub enum EventView {
    PieceLocked,
    LinesClear(Seq<usize>),
    HardDrop { cells: u32 },
    TSpin(SpinType),
    PerfectClear,
    Combo(u32),
    BackToBack(u32),
    GarbageReceived(u32),
    GameOver,
    LevelUp(u32),
}

/// What a `GameState` stands for.
pub struct GameView {
    pub board: Grid,
    pub current_piece: Option<Piece>,
    /// The pieces to come, in drawing order.
    pub upcoming: Seq<PieceType>,
    /// How many pieces have been drawn.
    pub drawn: nat,
    pub hold: Hold,
    pub gravity: Gravity,
    pub lock_delay: LockDelay,
    pub scoring: Scoring,
    /// The garbage on its way, oldest batch first.
    pub garbage: Seq<GarbageBatch>,
    /// Travel time, messiness and last gap column of the garbage queue.
    pub garbage_settings: (Duration, u32, usize),
    pub stats: Stats,
    pub game_over: bool,
    pub started: bool,
    pub last_was_rotation: bool,
    pub last_kick: Option<(i32, i32)>,
    /// The rows being cleared and the time their animation still takes.
    pub clearing_lines: Option<(Seq<usize>, Duration)>,
    pub events: Seq<EventView>,
    pub last_clear_type: Option<ClearType>,
    pub last_clear_time: Duration,
    pub action_text_timer: Duration,
    pub clear_delay: Duration,
}

/// The result of an action or step in which no piece locked.
pub open spec fn no_result() -> TickResult {
    TickResult {
        lines_cleared: 0,
        clear_type: ClearType::NoClear,
        is_perfect_clear: false,
        score_gained: 0,
        attack: 0,
        piece_locked: false,
        game_over: false,
        hard_dropped: false,
        spin_type: SpinType::NoSpin,
    }
}

/// A piece of the given shape where pieces appear.
pub open spec fn fresh_piece(piece_type: PieceType) -> Piece {
    Piece { piece_type, rotation: RotationState::R0, x: SPAWN_X, y: SPAWN_Y }
}

/// Whether no cell of the piece lies in a visible row.
pub open spec fn is_lockout(piece: Piece) -> bool {
    forall|i: int| 0 <= i < 4 ==> (#[trigger] piece.spec_cells()[i]).1 >= VISIBLE_HEIGHT
}

/// The greater of two counts.
pub open spec fn max_u32(a: u32, b: u32) -> u32 {
    if a >= b {
        a
    } else {
        b
    }
}

/// The board after `gaps.len()` garbage rows have come in one at a time,
/// the row that came in first with its gap in column `gaps[0]`.
pub open spec fn with_garbage(g: Grid, gaps: Seq<usize>) -> Grid
    decreases gaps.len(),
{
    if gaps.len() == 0 {
        g
    } else {
        grid_add_garbage(with_garbage(g, gaps.drop_last()), 1, gaps.last() as int)
    }
}

/// Whether `gaps` can be the gap columns of a run of garbage lines: each is
/// a column of the board, and without messiness each is the one before it.
pub open spec fn gaps_allowed(settings: (Duration, u32, usize), gaps: Seq<usize>) -> bool {
    forall|i: int|
        0 <= i < gaps.len() ==> (#[trigger] gaps[i]) < BOARD_WIDTH && (settings.1 == 0 ==> gaps[i]
            == settings.2)
}

/// The counters after a clear of the given type is counted.
pub open spec fn count_clear(stats: Stats, clear_type: ClearType) -> Stats {
    match clear_type {
        ClearType::Single => Stats { singles: (stats.singles + 1) as u32, ..stats },
        ClearType::Double => Stats { doubles: (stats.doubles + 1) as u32, ..stats },
        ClearType::Triple => Stats { triples: (stats.triples + 1) as u32, ..stats },
        ClearType::Quad => Stats { quads: (stats.quads + 1) as u32, ..stats },
        ClearType::TSpin | ClearType::MiniTSpin => Stats {
            tspins: (stats.tspins + 1) as u32,
            ..stats
        },
        ClearType::TSpinSingle => Stats {
            tspin_singles: (stats.tspin_singles + 1) as u32,
            tspins: (stats.tspins + 1) as u32,
            ..stats
        },
        ClearType::TSpinDouble => Stats {
            tspin_doubles: (stats.tspin_doubles + 1) as u32,
            tspins: (stats.tspins + 1) as u32,
            ..stats
        },
        ClearType::TSpinTriple => Stats {
            tspin_triples: (stats.tspin_triples + 1) as u32,
            tspins: (stats.tspins + 1) as u32,
            ..stats
        },
        ClearType::MiniTSpinSingle | ClearType::MiniTSpinDouble => Stats {
            mini_tspins: (stats.mini_tspins + 1) as u32,
            ..stats
        },
        ClearType::AllSpin(_) => Stats { all_spins: (stats.all_spins + 1) as u32, ..stats },
        ClearType::NoClear => stats,
    }
}

/// The counters after a lock within sight: one more piece placed, the clear
/// counted by its type, the garbage rows among the filled rows, a perfect
/// clear if it was one, the score, level and lines as the scoring has them,
/// the longest combo and chain so far, and the attack sent.
pub open spec fn stats_after_lock(
    stats: Stats,
    clear_type: ClearType,
    garbage_cleared: int,
    is_perfect_clear: bool,
    after: Scoring,
    sent: int,
) -> Stats {
    let counted = count_clear(stats, clear_type);
    Stats {
        pieces_placed: (stats.pieces_placed + 1) as u32,
        garbage_cleared: (stats.garbage_cleared + garbage_cleared) as u32,
        perfect_clears: if is_perfect_clear {
            (stats.perfect_clears + 1) as u32
        } else {
            stats.perfect_clears
        },
        score: after.score,
        level: after.level,
        lines_cleared: after.lines_cleared,
        max_combo: if after.combo >= 0 {
            max_u32(stats.max_combo, after.combo as u32)
        } else {
            stats.max_combo
        },
        max_btb: if after.btb >= 0 {
            max_u32(stats.max_btb, after.btb as u32)
        } else {
            stats.max_btb
        },
        attack_sent: (stats.attack_sent + sent) as u32,
        ..counted
    }
}

/// The events of a lock within sight, in the order in which they are told:
/// the lock, a perfect clear, a spin, a combo, a back-to-back chain, and the
/// rows that were filled.
pub open spec fn events_of_lock(
    is_perfect_clear: bool,
    spin: SpinType,
    after: Scoring,
    rows: Seq<usize>,
) -> Seq<EventView> {
    seq![EventView::PieceLocked] + (if is_perfect_clear {
        seq![EventView::PerfectClear]
    } else {
        seq![]
    }) + (if spin != SpinType::NoSpin {
        seq![EventView::TSpin(spin)]
    } else {
        seq![]
    }) + (if after.combo > 0 {
        seq![EventView::Combo(after.combo as u32)]
    } else {
        seq![]
    }) + (if after.btb > 0 {
        seq![EventView::BackToBack(after.btb as u32)]
    } else {
        seq![]
    }) + (if rows.len() > 0 {
        seq![EventView::LinesClear(rows)]
    } else {
        seq![]
    })
}

impl GameView {
    /// Whether the game takes no action and no time: it is over or has not started.
    pub open spec fn idle(self) -> bool {
        self.game_over || !self.started
    }

    /// The state with other pieces to come.
    pub open spec fn with_upcoming(self, upcoming: Seq<PieceType>) -> GameView {
        GameView { upcoming, ..self }
    }

    /// The state as `model` says, but for a preview that may reach further:
    /// what `model` shows of the pieces to come is the beginning of what
    /// this state shows.
    pub open spec fn extends(self, model: GameView) -> bool {
        &&& self == (GameView { upcoming: self.upcoming, ..model })
        &&& model.upcoming.len() <= self.upcoming.len()
        &&& self.upcoming.subrange(0, model.upcoming.len() as int) == model.upcoming
    }

    /// The state of a game that has not been started: an empty board, no
    /// piece, fresh timers and counters, nothing held, nothing pending, and
    /// the usual settings.
    pub open spec fn unstarted(upcoming: Seq<PieceType>) -> GameView {
        GameView {
            board: super::board::empty_grid(),
            current_piece: None,
            upcoming,
            drawn: 0,
            hold: Hold { piece: None, used_this_turn: false },
            gravity: Gravity::spec_new(),
            lock_delay: LockDelay::spec_new(),
            scoring: Scoring::spec_new(),
            garbage: Seq::empty(),
            garbage_settings: (
                Duration { nanos: super::garbage::TRAVEL_NANOS },
                super::garbage::DEFAULT_MESSINESS,
                4,
            ),
            stats: Stats::spec_new(),
            game_over: false,
            started: false,
            last_was_rotation: false,
            last_kick: None,
            clearing_lines: None,
            events: Seq::empty(),
            last_clear_type: None,
            last_clear_time: Duration { nanos: 0 },
            action_text_timer: Duration { nanos: 0 },
            clear_delay: Duration { nanos: super::CLEAR_DELAY_NANOS },
        }
    }

    /// The state of a game that has just been started with `first` as its
    /// first piece: an empty board, fresh timers and counters, nothing held,
    /// nothing pending. The settings of the garbage queue, the time of the
    /// last clear and the length of the clear animation are kept from `self`.
    pub open spec fn restarted(self, first: PieceType) -> GameView {
        GameView {
            board: super::board::empty_grid(),
            current_piece: Some(fresh_piece(first)),
            upcoming: self.upcoming,
            drawn: 1,
            hold: Hold { piece: None, used_this_turn: false },
            gravity: Gravity::spec_new(),
            lock_delay: LockDelay::spec_new(),
            scoring: Scoring::spec_new(),
            garbage: Seq::empty(),
            garbage_settings: self.garbage_settings,
            stats: Stats::spec_new(),
            game_over: false,
            started: true,
            last_was_rotation: false,
            last_kick: None,
            clearing_lines: None,
            events: Seq::empty(),
            last_clear_type: None,
            last_clear_time: self.last_clear_time,
            action_text_timer: Duration { nanos: 0 },
            clear_delay: self.clear_delay,
        }
    }

    // Spawning

    /// The state after the next piece is drawn and put in play. If it does
    /// not fit where pieces appear, the game is over.
    pub open spec fn after_spawn(self) -> GameView {
        let piece = fresh_piece(self.upcoming[0]);
        let drawn = GameView {
            upcoming: self.upcoming.drop_first(),
            drawn: self.drawn + 1,
            ..self
        };
        if !piece_fits_grid(self.board, piece) {
            GameView { game_over: true, events: self.events.push(EventView::GameOver), ..drawn }
        } else {
            GameView {
                current_piece: Some(piece),
                lock_delay: LockDelay::spec_new(),
                gravity: Gravity { accumulator: Duration { nanos: 0 }, ..self.gravity },
                last_was_rotation: false,
                last_kick: None,
                ..drawn
            }
        }
    }

    // Moves and turns

    /// The lock timer after the piece in play has moved or turned to `piece`:
    /// on the ground, the move asks for a restart.
    pub open spec fn lock_delay_after_move(self, piece: Piece) -> LockDelay {
        if grounded(self.board, piece) {
            self.lock_delay.after_reset()
        } else {
            self.lock_delay
        }
    }

    /// The state after a move by `dx` columns was asked for. A move that
    /// does not fit changes nothing.
    pub open spec fn after_shift(self, dx: int) -> GameView {
        match self.current_piece {
            Some(piece) => if can_shift(self.board, piece, dx, 0) {
                GameView {
                    current_piece: Some(shifted(piece, dx, 0)),
                    last_was_rotation: false,
                    lock_delay: self.lock_delay_after_move(shifted(piece, dx, 0)),
                    ..self
                }
            } else {
                self
            },
            None => self,
        }
    }

    /// The state after a soft drop was asked for: soft dropping is on, and
    /// the piece moves down a row for one point if it can.
    pub open spec fn after_soft_drop(self) -> GameView {
        let held = GameView { gravity: Gravity { soft_dropping: true, ..self.gravity }, ..self };
        match self.current_piece {
            Some(piece) => if can_shift(self.board, piece, 0, -1) {
                GameView {
                    current_piece: Some(shifted(piece, 0, -1)),
                    last_was_rotation: false,
                    scoring: Scoring { score: (self.scoring.score + 1) as u64, ..self.scoring },
                    gravity: Gravity {
                        accumulator: Duration { nanos: 0 },
                        soft_dropping: true,
                        ..self.gravity
                    },
                    ..held
                }
            } else {
                held
            },
            None => held,
        }
    }

    /// The state after a turn by `quarters` clockwise quarter turns was
    /// asked for. A turn for which no wall kick fits changes nothing.
    pub open spec fn after_rotate(self, quarters: int) -> GameView {
        match self.current_piece {
            Some(piece) => {
                let target = piece.rotation.turned(quarters);
                match rotation_kick(self.board, piece, target) {
                    Some(kick) => GameView {
                        current_piece: Some(rotated(piece, target, Some(kick))),
                        last_was_rotation: true,
                        last_kick: Some(kick),
                        lock_delay: self.lock_delay_after_move(
                            rotated(piece, target, Some(kick)),
                        ),
                        ..self
                    },
                    None => self,
                }
            },
            None => self,
        }
    }

    // Hold

    /// The state with the timers and the spin memory of a fresh piece.
    pub open spec fn with_fresh_timers(self) -> GameView {
        GameView {
            lock_delay: LockDelay::spec_new(),
            gravity: Gravity { accumulator: Duration { nanos: 0 }, ..self.gravity },
            last_was_rotation: false,
            last_kick: None,
            ..self
        }
    }

    /// The state after a hold was asked for. The piece in play goes into the
    /// slot; the shape that was held comes into play, or the next piece if
    /// none was. Nothing changes if the slot was already used for this piece
    /// or if the shape that was held does not fit where pieces appear.
    pub open spec fn after_hold(self) -> GameView {
        match self.current_piece {
            Some(piece) => if self.hold.used_this_turn {
                self
            } else {
                let slot = Hold { piece: Some(piece.piece_type), used_this_turn: true };
                match self.hold.piece {
                    Some(held) => if piece_fits_grid(self.board, fresh_piece(held)) {
                        (GameView {
                            hold: slot,
                            current_piece: Some(fresh_piece(held)),
                            ..self
                        }).with_fresh_timers()
                    } else {
                        self
                    },
                    None => (GameView {
                        hold: slot,
                        current_piece: None,
                        ..self
                    }).after_spawn().with_fresh_timers(),
                }
            },
            None => self,
        }
    }

    // Locking

    /// The spin that the lock of `piece` counts as.
    pub open spec fn lock_spin(self, piece: Piece) -> SpinType {
        spec_detect_spin(self.board, piece, self.last_was_rotation, self.last_kick)
    }

    /// The board with `piece` locked onto it.
    pub open spec fn locked_board(self, piece: Piece) -> Grid {
        grid_lock(self.board, piece.spec_cells(), piece.piece_type)
    }

    /// The rows that the lock of `piece` fills.
    pub open spec fn lock_rows(self, piece: Piece) -> Seq<usize> {
        full_rows(self.locked_board(piece))
    }

    /// The number of rows that the lock of `piece` fills.
    pub open spec fn lock_lines(self, piece: Piece) -> u32 {
        self.lock_rows(piece).len() as u32
    }

    /// The clear type of the lock of `piece`.
    pub open spec fn lock_clear_type(self, piece: Piece) -> ClearType {
        ClearType::spec_classify(self.lock_lines(piece), self.lock_spin(piece))
    }

    /// Whether the lock of `piece` clears at least one row and leaves the board empty.
    pub open spec fn lock_is_perfect(self, piece: Piece) -> bool {
        self.lock_lines(piece) > 0 && grid_is_empty(
            grid_clear(self.locked_board(piece), self.lock_rows(piece)),
        )
    }

    /// The score that the lock of `piece` earns.
    pub open spec fn lock_gain(self, piece: Piece) -> int {
        self.scoring.gained(
            self.lock_clear_type(piece),
            self.lock_lines(piece),
            self.lock_is_perfect(piece),
        )
    }

    /// The attack of the lock of `piece`, before it is set against incoming garbage.
    pub open spec fn lock_attack(self, piece: Piece) -> int {
        self.scoring.attack_of(
            self.lock_clear_type(piece),
            self.lock_lines(piece),
            self.lock_is_perfect(piece),
        )
    }

    /// The attack of the lock of `piece` that is left to send once it has
    /// cancelled incoming garbage.
    pub open spec fn lock_sent(self, piece: Piece) -> int {
        if self.lock_attack(piece) > 0 {
            leftover(self.garbage, self.lock_attack(piece))
        } else {
            0
        }
    }

    /// The scoring state after the lock of `piece`.
    pub open spec fn lock_scoring(self, piece: Piece) -> Scoring {
        self.scoring.after_clear(
            self.lock_clear_type(piece),
            self.lock_lines(piece),
            self.lock_is_perfect(piece),
        )
    }

    /// The counters after the lock of `piece`.
    pub open spec fn lock_stats(self, piece: Piece) -> Stats {
        stats_after_lock(
            self.stats,
            self.lock_clear_type(piece),
            garbage_rows_among(
                self.locked_board(piece),
                self.lock_rows(piece),
                self.lock_rows(piece).len() as int,
            ),
            self.lock_is_perfect(piece),
            self.lock_scoring(piece),
            self.lock_sent(piece),
        )
    }

    /// The events that the lock of `piece` adds before the next piece appears.
    pub open spec fn lock_events(self, piece: Piece) -> Seq<EventView> {
        events_of_lock(
            self.lock_is_perfect(piece),
            self.lock_spin(piece),
            self.lock_scoring(piece),
            self.lock_rows(piece),
        )
    }

    /// The state after `piece` locked entirely above the visible rows: the game is over.
    pub open spec fn after_lockout(self, piece: Piece) -> GameView {
        GameView {
            board: self.locked_board(piece),
            current_piece: None,
            stats: Stats { pieces_placed: (self.stats.pieces_placed + 1) as u32, ..self.stats },
            hold: Hold { used_this_turn: false, ..self.hold },
            events: self.events + seq![EventView::PieceLocked, EventView::GameOver],
            game_over: true,
            ..self
        }
    }

    /// The state after `piece` locked within sight, before full rows are
    /// removed and before the next piece appears.
    pub open spec fn after_lock_scored(self, piece: Piece) -> GameView {
        let after = self.lock_scoring(piece);
        let clear_type = self.lock_clear_type(piece);
        GameView {
            board: self.locked_board(piece),
            current_piece: None,
            stats: self.lock_stats(piece),
            hold: Hold { used_this_turn: false, ..self.hold },
            events: self.events + self.lock_events(piece),
            scoring: after,
            garbage: if self.lock_attack(piece) > 0 {
                cancelled(self.garbage, self.lock_attack(piece))
            } else {
                self.garbage
            },
            gravity: Gravity { level: after.level, ..self.gravity },
            last_clear_type: if clear_type is NoClear {
                self.last_clear_type
            } else {
                Some(clear_type)
            },
            action_text_timer: if clear_type is NoClear {
                self.action_text_timer
            } else {
                Duration { nanos: ACTION_TEXT_NANOS }
            },
            ..self
        }
    }

    /// The state after the piece in play locks. Entirely above the visible
    /// rows the lock ends the game. Otherwise the lock is scored; if it
    /// filled rows, their clearing begins, and if not, the next piece appears.
    pub open spec fn after_lock(self) -> GameView {
        match self.current_piece {
            Some(piece) => if is_lockout(piece) {
                self.after_lockout(piece)
            } else {
                let scored = self.after_lock_scored(piece);
                if self.lock_lines(piece) > 0 {
                    GameView {
                        clearing_lines: Some((self.lock_rows(piece), self.clear_delay)),
                        ..scored
                    }
                } else {
                    scored.after_spawn()
                }
            },
            None => self,
        }
    }

    /// What the lock of the piece in play reports.
    pub open spec fn lock_result(self) -> TickResult {
        match self.current_piece {
            Some(piece) => if is_lockout(piece) {
                TickResult { game_over: true, piece_locked: true, ..no_result() }
            } else {
                TickResult {
                    lines_cleared: self.lock_lines(piece),
                    clear_type: self.lock_clear_type(piece),
                    is_perfect_clear: self.lock_is_perfect(piece),
                    score_gained: self.lock_gain(piece) as u64,
                    attack: self.lock_sent(piece) as u32,
                    piece_locked: true,
                    game_over: self.after_lock().game_over,
                    hard_dropped: false,
                    spin_type: self.lock_spin(piece),
                }
            },
            None => no_result(),
        }
    }

    // Hard drop

    /// The number of rows that the piece falls in a hard drop.
    pub open spec fn drop_distance(self, piece: Piece) -> int {
        piece.y - landing_y(
            self.board,
            piece.piece_type,
            piece.x as int,
            piece.y as int,
            piece.rotation,
        )
    }

    /// The state after the piece has fallen to rest in a hard drop, for two
    /// points per row, and before it locks.
    pub open spec fn after_fall(self) -> GameView {
        match self.current_piece {
            Some(piece) => GameView {
                current_piece: Some(shifted(piece, 0, -self.drop_distance(piece))),
                scoring: Scoring {
                    score: (self.scoring.score + 2 * self.drop_distance(piece)) as u64,
                    ..self.scoring
                },
                events: self.events.push(
                    EventView::HardDrop { cells: self.drop_distance(piece) as u32 },
                ),
                ..self
            },
            None => self,
        }
    }

    // Actions

    /// The state after an action. A game that is over or not started, or
    /// that is clearing rows, takes no action; every other action is counted
    /// as an input.
    pub open spec fn after_action(self, action: GameAction) -> GameView {
        if self.idle() || self.clearing_lines is Some {
            self
        } else {
            let counted = GameView {
                stats: Stats { inputs: (self.stats.inputs + 1) as u32, ..self.stats },
                ..self
            };
            match action {
                GameAction::MoveLeft => counted.after_shift(-1),
                GameAction::MoveRight => counted.after_shift(1),
                GameAction::SoftDrop => counted.after_soft_drop(),
                GameAction::HardDrop => counted.after_fall().after_lock(),
                GameAction::RotateCW => counted.after_rotate(1),
                GameAction::RotateCCW => counted.after_rotate(3),
                GameAction::Rotate180 => counted.after_rotate(2),
                GameAction::Hold => counted.after_hold(),
                GameAction::SoftDropRelease => GameView {
                    gravity: Gravity { soft_dropping: false, ..counted.gravity },
                    ..counted
                },
            }
        }
    }

    /// What an action reports: the lock that a hard drop ends in, and
    /// nothing for every other action.
    pub open spec fn action_result(self, action: GameAction) -> TickResult {
        if self.idle() || self.clearing_lines is Some {
            no_result()
        } else if action == GameAction::HardDrop && self.current_piece is Some {
            let counted = GameView {
                stats: Stats { inputs: (self.stats.inputs + 1) as u32, ..self.stats },
                ..self
            };
            TickResult { hard_dropped: true, ..counted.after_fall().lock_result() }
        } else {
            no_result()
        }
    }

    // Time

    /// The state after the clock and the action text have taken in `dt`.
    pub open spec fn after_clock(self, dt: Duration) -> GameView {
        let timed = GameView {
            stats: Stats {
                time: Duration { nanos: (self.stats.time.nanos + dt.nanos) as u128 },
                ..self.stats
            },
            ..self
        };
        if self.action_text_timer.nanos > dt.nanos {
            GameView {
                action_text_timer: Duration {
                    nanos: (self.action_text_timer.nanos - dt.nanos) as u128,
                },
                ..timed
            }
        } else if self.action_text_timer.nanos > 0 {
            GameView {
                action_text_timer: Duration { nanos: 0 },
                last_clear_type: None,
                ..timed
            }
        } else {
            timed
        }
    }

    /// The state after `dt` of a running clear animation: once it is over,
    /// the rows are removed and the next piece appears.
    pub open spec fn after_animation(
        self,
        rows: Seq<usize>,
        timer: Duration,
        dt: Duration,
    ) -> GameView {
        if dt.nanos >= timer.nanos {
            (GameView {
                clearing_lines: None,
                board: grid_clear(self.board, rows),
                ..self
            }).after_spawn()
        } else {
            GameView {
                clearing_lines: Some((rows, Duration { nanos: (timer.nanos - dt.nanos) as u128 })),
                ..self
            }
        }
    }

    /// The state after `dt` of the clear animation, if one is running.
    pub open spec fn after_animation_step(self, dt: Duration) -> GameView {
        match self.clearing_lines {
            Some((rows, timer)) => self.after_animation(rows, timer, dt),
            None => self,
        }
    }

    /// The number of rows that gravity moves `piece` within `dt`: the rows
    /// that fall due, but no further than to where the piece rests.
    pub open spec fn gravity_rows(self, piece: Piece, dt: Duration) -> int {
        let due = drops_due(
            self.gravity.accumulator.nanos + dt.nanos,
            self.gravity.spec_interval(),
        );
        if due <= self.drop_distance(piece) {
            due
        } else {
            self.drop_distance(piece)
        }
    }

    /// The state after gravity has moved `piece` within `dt` and the lock
    /// timer has taken in whether the piece rests. While soft dropping, each
    /// row fallen earns a point.
    pub open spec fn after_gravity(self, piece: Piece, dt: Duration) -> GameView {
        let rows = self.gravity_rows(piece, dt);
        let fallen = shifted(piece, 0, -rows);
        GameView {
            current_piece: Some(fallen),
            gravity: Gravity {
                accumulator: Duration {
                    nanos: ((self.gravity.accumulator.nanos + dt.nanos)
                        % self.gravity.spec_interval()) as u128,
                },
                ..self.gravity
            },
            last_was_rotation: if rows > 0 {
                false
            } else {
                self.last_was_rotation
            },
            scoring: if self.gravity.soft_dropping {
                Scoring { score: (self.scoring.score + rows) as u64, ..self.scoring }
            } else {
                self.scoring
            },
            lock_delay: self.lock_delay.after_ground_check(grounded(self.board, fallen)),
            ..self
        }
    }

    /// Whether the piece in play locks in this step: it rests, and its lock
    /// timer runs out within `dt`.
    pub open spec fn lock_due(self, dt: Duration) -> bool {
        match self.current_piece {
            Some(piece) => grounded(self.board, piece) && self.lock_delay.expires(dt),
            None => false,
        }
    }

    /// The state after the garbage queue has taken in `dt` and the lines
    /// that arrived have come onto the board with their gaps in the columns
    /// `gaps`. A piece in play that then overlaps the board ends the game.
    pub open spec fn after_garbage(self, dt: Duration, gaps: Seq<usize>) -> GameView {
        let ready = arrived(self.garbage, dt);
        let queued = GameView { garbage: travelling(self.garbage, dt), ..self };
        if ready > 0 && self.clearing_lines is None {
            let board = with_garbage(self.board, gaps);
            let received = GameView {
                board,
                garbage_settings: (
                    self.garbage_settings.0,
                    self.garbage_settings.1,
                    gaps.last(),
                ),
                stats: Stats {
                    garbage_received: (self.stats.garbage_received + ready) as u32,
                    ..self.stats
                },
                events: self.events.push(EventView::GarbageReceived(ready as u32)),
                ..queued
            };
            match self.current_piece {
                Some(piece) => if !piece_fits_grid(board, piece) {
                    GameView {
                        game_over: true,
                        events: received.events.push(EventView::GameOver),
                        ..received
                    }
                } else {
                    received
                },
                None => received,
            }
        } else {
            queued
        }
    }

    /// The state after a step of `dt`, with `gaps` as the gap columns of the
    /// garbage that arrives. A running clear animation takes the whole step.
    /// Otherwise gravity moves the piece; a piece whose lock timer runs out
    /// locks, and that ends the step; if none locks, garbage is taken in.
    pub open spec fn after_update(self, dt: Duration, gaps: Seq<usize>) -> GameView {
        if self.idle() {
            self
        } else {
            let timed = self.after_clock(dt);
            match timed.clearing_lines {
                Some((rows, timer)) => timed.after_animation(rows, timer, dt),
                None => match timed.current_piece {
                    Some(piece) => {
                        let fallen = timed.after_gravity(piece, dt);
                        if fallen.lock_due(dt) {
                            (GameView {
                                lock_delay: fallen.lock_delay.after_tick(dt),
                                ..fallen
                            }).after_lock()
                        } else if fallen.lock_delay.grounded {
                            (GameView {
                                lock_delay: fallen.lock_delay.after_tick(dt),
                                ..fallen
                            }).after_garbage(dt, gaps)
                        } else {
                            fallen.after_garbage(dt, gaps)
                        }
                    },
                    None => timed.after_garbage(dt, gaps),
                },
            }
        }
    }

    /// What a step of `dt` reports: the lock of a piece whose timer ran out,
    /// and nothing otherwise.
    pub open spec fn update_result(self, dt: Duration) -> TickResult {
        if self.idle() || self.clearing_lines is Some {
            no_result()
        } else {
            match self.current_piece {
                Some(piece) => {
                    let fallen = self.after_clock(dt).after_gravity(piece, dt);
                    if fallen.lock_due(dt) {
                        (GameView {
                            lock_delay: fallen.lock_delay.after_tick(dt),
                            ..fallen
                        }).lock_result()
                    } else {
                        no_result()
                    }
                },
                None => no_result(),
            }
        }
    }

    /// Whether `next` is a state that an action can lead to from this one.
    pub open spec fn acts_to(self, action: GameAction, next: GameView) -> bool {
        next.extends(self.after_action(action))
    }

    /// Whether `next` is a state that a step of `dt` can lead to from this
    /// one, with some choice of gap columns for the garbage that arrives.
    pub open spec fn steps_to(self, dt: Duration, next: GameView) -> bool {
        exists|gaps: Seq<usize>|
            gaps.len() == arrived(self.garbage, dt) && gaps_allowed(self.garbage_settings, gaps)
                && next.extends(#[trigger] self.after_update(dt, gaps))
    }

    /// Whether `end` is a state that the first `n` of `actions` can lead to
    /// from this one, each taken from a state whose counters have room for it.
    pub open spec fn reaches(self, actions: Seq<GameAction>, n: int, end: GameView) -> bool
        decreases n,
    {
        if n <= 0 {
            end == self
        } else {
            exists|prev: GameView|
                self.reaches(actions, n - 1, prev) && prev.within_limits()
                    && #[trigger] prev.acts_to(actions[n - 1], end)
        }
    }

    /// Whether taking `actions` one after the other and then a step of `dt`
    /// can lead from this state to `end`, with `done` telling whether all of
    /// it was taken. All of it is taken when the counters have room before
    /// every action and the counters and clocks have room before the step.
    /// Otherwise `end` is the first state in which room is missing, and
    /// nothing is taken from there on.
    pub open spec fn advances_to(
        self,
        actions: Seq<GameAction>,
        dt: Duration,
        done: bool,
        end: GameView,
    ) -> bool {
        if done {
            exists|mid: GameView|
                #[trigger] self.reaches(actions, actions.len() as int, mid) && mid.within_limits()
                    && mid.time_fits(dt) && mid.steps_to(dt, end)
        } else {
            exists|n: int|
                0 <= n <= actions.len() && #[trigger] self.reaches(actions, n, end) && if n
                    < actions.len() {
                    !end.within_limits()
                } else {
                    !(end.within_limits() && end.time_fits(dt))
                }
        }
    }

    /// Whether `next` is a state that starting the game over can lead to
    /// from this one: the fresh game with some first piece in play, and with
    /// whatever pieces the new bags hold to come.
    pub open spec fn starts_to(self, next: GameView) -> bool {
        next.current_piece matches Some(piece) && next == self.restarted(
            piece.piece_type,
        ).with_upcoming(next.upcoming)
    }

    // Limits of the counters

    /// The most that one lock can earn at the present combo and level.
    pub open spec fn max_gain(self) -> int {
        (5100 + 50 * (if self.scoring.combo >= 0 {
            self.scoring.combo + 1
        } else {
            0
        })) * 3 / 2 * (self.scoring.level + 1)
    }

    /// Whether every counter that a lock touches has room for it.
    pub open spec fn lock_limits(self) -> bool {
        &&& self.drawn < usize::MAX
        &&& self.stats.pieces_placed < u32::MAX
        &&& self.stats.garbage_cleared + 40 <= u32::MAX
        &&& self.stats.singles < u32::MAX
        &&& self.stats.doubles < u32::MAX
        &&& self.stats.triples < u32::MAX
        &&& self.stats.quads < u32::MAX
        &&& self.stats.tspins < u32::MAX
        &&& self.stats.tspin_singles < u32::MAX
        &&& self.stats.tspin_doubles < u32::MAX
        &&& self.stats.tspin_triples < u32::MAX
        &&& self.stats.mini_tspins < u32::MAX
        &&& self.stats.all_spins < u32::MAX
        &&& self.stats.perfect_clears < u32::MAX
        &&& self.stats.attack_sent + 100 <= u32::MAX
        &&& self.scoring.combo < i32::MAX
        &&& self.scoring.btb < i32::MAX
        &&& self.scoring.lines_cleared + 40 <= u32::MAX
        &&& (self.scoring.level + 1) * self.scoring.lines_per_level <= u32::MAX
        &&& self.scoring.level < u32::MAX
    }

    /// Whether every counter has room for what one action or one step can
    /// add to it: an input, the points of a drop, a lock, and the garbage
    /// that is on its way.
    pub open spec fn within_limits(self) -> bool {
        &&& self.lock_limits()
        &&& self.stats.inputs < u32::MAX
        &&& self.stats.garbage_received + total_lines(self.garbage) <= u32::MAX
        &&& self.scoring.score + 100 + self.max_gain() <= u64::MAX
    }

    /// Whether the clocks have room for a step of `dt`.
    pub open spec fn time_fits(self, dt: Duration) -> bool {
        &&& self.stats.time.nanos + dt.nanos <= u128::MAX
        &&& self.gravity.accumulator.nanos + dt.nanos <= u128::MAX
    }
}

/// A game that is over stays as it is, whatever is asked of it and however
/// much time passes.
pub proof fn lemma_game_over_is_final(
    view: GameView,
    action: GameAction,
    dt: Duration,
    gaps: Seq<usize>,
)
    requires
        view.game_over,
    ensures
        view.after_action(action) == view,
        view.action_result(action) == no_result(),
        view.after_update(dt, gaps) == view,
        view.update_result(dt) == no_result(),
{
}

/// A hold is refused, and changes nothing but the count of inputs, when the
/// slot was already used for the piece in play, and also when the shape that
/// is held does not fit where pieces appear.
pub proof fn lemma_refused_hold_changes_nothing(view: GameView)
    requires
        view.current_piece is Some,
        view.hold.used_this_turn || (view.hold.piece matches Some(held) && !piece_fits_grid(
            view.board,
            fresh_piece(held),
        )),
    ensures
        view.after_hold() == view,
{
}

/// A move or a turn that does not fit changes nothing.
pub proof fn lemma_blocked_move_changes_nothing(view: GameView, dx: int, quarters: int)
    requires
        view.current_piece matches Some(piece) && !can_shift(view.board, piece, dx, 0)
            && rotation_kick(view.board, piece, piece.rotation.turned(quarters)) is None,
    ensures
        view.after_shift(dx) == view,
        view.after_rotate(quarters) == view,
{
}

/// A piece that locks within sight without a spin and fills four rows at
/// once makes a quad: the lock reports a quad of four lines, earns at least
/// the score of a quad times the level plus one, tells the four rows, and
/// starts their clearing.
pub proof fn lemma_four_rows_are_a_quad(view: GameView, piece: Piece)
    requires
        view.current_piece == Some(piece),
        !is_lockout(piece),
        !view.last_was_rotation,
        view.lock_rows(piece).len() == 4,
    ensures
        view.lock_result().clear_type == ClearType::Quad,
        view.lock_result().lines_cleared == 4,
        view.lock_result().piece_locked,
        view.lock_gain(piece) >= 800 * (view.scoring.level + 1),
        view.scoring.combo < 0 && view.scoring.btb < 0 && !view.lock_is_perfect(piece)
            ==> view.lock_gain(piece) == 800 * (view.scoring.level + 1),
        view.after_lock().events == view.events + view.lock_events(piece),
        view.lock_events(piece).last() == EventView::LinesClear(view.lock_rows(piece)),
        view.after_lock().clearing_lines == Some((view.lock_rows(piece), view.clear_delay)),
        view.after_lock().current_piece is None,
{
    let combo = view.scoring.next_combo(4);
    let plain = 800 + (if view.lock_is_perfect(piece) {
        3500int
    } else {
        0int
    }) + (if combo > 0 {
        50 * combo
    } else {
        0int
    });
    let chained = if view.scoring.next_btb(ClearType::Quad, 4) > 0 {
        plain * 3 / 2
    } else {
        plain
    };
    assert(chained >= 800);
    assert(chained * (view.scoring.level + 1) >= 800 * (view.scoring.level + 1))
        by (nonlinear_arith)
        requires
            chained >= 800,
            view.scoring.level >= 0,
    ;
}

} // verus!
