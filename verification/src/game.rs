//! The game simulation: the parts of a game and the coordinator that runs
//! one board through actions and steps of time.

pub mod piece;
pub mod srs;
pub mod board;
pub mod clear;
pub mod scoring;
pub mod movement;
pub mod locking;
pub mod hold;
pub mod ghost;
pub mod gravity;
pub mod bag;
pub mod garbage;
pub mod stats;
pub mod model;

use vstd::prelude::*;
use rand::rngs::ThreadRng;
use self::bag::Bag;
use self::board::{Board, BOARD_HEIGHT, BOARD_WIDTH, VISIBLE_HEIGHT};
use self::clear::{ClearType, SpinType};
use self::garbage::GarbageQueue;
use self::gravity::Gravity;
use self::hold::Hold;
use self::locking::LockDelay;
use self::model::{
    fresh_piece, gaps_allowed, is_lockout, no_result, with_garbage, EventView, GameView,
};
use self::movement::{detect_spin, is_grounded};
use self::piece::{Piece, PieceType};
use self::scoring::Scoring;
use self::stats::Stats;
use crate::rng;
use crate::time::Duration;

verus! {

/// Nanoseconds that the clearing of full rows takes.
pub const CLEAR_DELAY_NANOS: u128 = 200_000_000;

/// How far the preview looks ahead.
pub const PREVIEW_LEN: usize = 3;

/// What a player can ask for.
#[derive(Debug, Clone, Copy, PartialEq, Eq, Structural)]
pub enum GameAction {
    MoveLeft,
    MoveRight,
    SoftDrop,
    HardDrop,
    RotateCW,
    RotateCCW,
    Rotate180,
    Hold,
    SoftDropRelease,
}

/// What an action or a step of time reports.
#[derive(Debug, Clone, Copy, PartialEq, Eq, Structural)]
pub struct TickResult {
    pub lines_cleared: u32,
    pub clear_type: ClearType,
    pub is_perfect_clear: bool,
    pub score_gained: u64,
    /// Attack that is left to send after incoming garbage was cancelled.
    pub attack: u32,
    pub piece_locked: bool,
    pub game_over: bool,
    pub hard_dropped: bool,
    pub spin_type: SpinType,
}

impl TickResult {
    /// The report of an action or a step in which no piece locked.
    pub fn none() -> (result: TickResult)
        ensures
            result == no_result(),
    {
        TickResult {
            lines_cleared: 0,
            clear_type: ClearType::NoClear,
            is_perfect_clear: false,
            score_gained: 0,
            attack: 0,
            piece_locked: false,
            game_over: false,
            hard_dropped: false,
            spin_type: SpinType::NoSpin,
        }
    }
}

/// Something that happened on the board, for whoever draws it.
#[derive(Debug, Clone)]
pub enum GameEvent {
    PieceLocked,
    /// The rows that were filled, ascending.
    LinesClear(Vec<usize>),
    HardDrop { cells: u32 },
    TSpin(SpinType),
    PerfectClear,
    Combo(u32),
    BackToBack(u32),
    GarbageReceived(u32),
    GameOver,
    LevelUp(u32),
}

impl View for GameEvent {
    type V = EventView;

    open spec fn view(&self) -> EventView {
        match self {
            GameEvent::PieceLocked => EventView::PieceLocked,
            GameEvent::LinesClear(rows) => EventView::LinesClear(rows@),
            GameEvent::HardDrop { cells } => EventView::HardDrop { cells: *cells },
            GameEvent::TSpin(spin) => EventView::TSpin(*spin),
            GameEvent::PerfectClear => EventView::PerfectClear,
            GameEvent::Combo(n) => EventView::Combo(*n),
            GameEvent::BackToBack(n) => EventView::BackToBack(*n),
            GameEvent::GarbageReceived(n) => EventView::GarbageReceived(*n),
            GameEvent::GameOver => EventView::GameOver,
            GameEvent::LevelUp(n) => EventView::LevelUp(*n),
        }
    }
}

/// What a list of events stands for.
pub open spec fn events_view(events: Seq<GameEvent>) -> Seq<EventView> {
    Seq::new(events.len(), |i: int| events[i]@)
}

/// One board in play with everything that belongs to it.
#[derive(Debug)]
pub struct GameState {
    pub board: Board,
    pub current_piece: Option<Piece>,
    pub bag: Bag,
    pub hold: Hold,
    pub gravity: Gravity,
    pub lock_delay: LockDelay,
    pub scoring: Scoring,
    pub garbage: GarbageQueue,
    pub stats: Stats,
    pub rng: ThreadRng,
    pub game_over: bool,
    pub started: bool,
    /// Whether the last move of the piece in play was a rotation.
    pub last_was_rotation: bool,
    /// The wall kick of that rotation.
    pub last_kick: Option<(i32, i32)>,
    /// The rows being cleared and the time their animation still takes.
    pub clearing_lines: Option<(Vec<usize>, Duration)>,
    /// What happened since the events were last drained.
    pub events: Vec<GameEvent>,
    pub last_clear_type: Option<ClearType>,
    pub last_clear_time: Duration,
    pub action_text_timer: Duration,
    /// How long the clearing of full rows takes.
    pub clear_delay: Duration,
}

impl View for GameState {
    type V = GameView;

    open spec fn view(&self) -> GameView {
        GameView {
            board: self.board@,
            current_piece: self.current_piece,
            upcoming: self.bag.upcoming(),
            drawn: self.bag.drawn(),
            hold: self.hold,
            gravity: self.gravity,
            lock_delay: self.lock_delay,
            scoring: self.scoring,
            garbage: self.garbage@,
            garbage_settings: self.garbage.settings(),
            stats: self.stats,
            game_over: self.game_over,
            started: self.started,
            last_was_rotation: self.last_was_rotation,
            last_kick: self.last_kick,
            clearing_lines: match self.clearing_lines {
                Some((rows, timer)) => Some((rows@, timer)),
                None => None,
            },
            events: events_view(self.events@),
            last_clear_type: self.last_clear_type,
            last_clear_time: self.last_clear_time,
            action_text_timer: self.action_text_timer,
            clear_delay: self.clear_delay,
        }
    }
}

impl GameState {
    /// A game that has not been started: an empty board, no piece, fresh
    /// counters and two shuffled bags.
    pub fn new() -> (game: GameState)
        ensures
            game@ == GameView::unstarted(game@.upcoming),
    {
        let mut rng = rng::thread_rng();
        let bag = Bag::new(&mut rng);
        let game = GameState {
            board: Board::new(),
            current_piece: None,
            bag,
            hold: Hold::new(),
            gravity: Gravity::new(),
            lock_delay: LockDelay::new(),
            scoring: Scoring::new(),
            garbage: GarbageQueue::new(),
            stats: Stats::new(),
            rng,
            game_over: false,
            started: false,
            last_was_rotation: false,
            last_kick: None,
            clearing_lines: None,
            events: Vec::new(),
            last_clear_type: None,
            last_clear_time: Duration::zero(),
            action_text_timer: Duration::zero(),
            clear_delay: Duration::from_nanos(CLEAR_DELAY_NANOS),
        };
        assert(game@.events =~= Seq::<EventView>::empty());
        game
    }

    /// Starts the game over: an empty board, fresh counters, new bags, and
    /// the first piece in play.
    pub fn start(&mut self)
        ensures
            old(self)@.starts_to(final(self)@),
    {
        let mut rng = rng::thread_rng();
        self.board = Board::new();
        self.bag = Bag::new(&mut rng);
        self.hold.reset();
        self.gravity = Gravity::new();
        self.lock_delay.reset();
        self.scoring.reset();
        self.garbage.clear();
        self.stats.reset();
        self.rng = rng;
        self.game_over = false;
        self.started = true;
        self.current_piece = None;
        self.clearing_lines = None;
        self.events.clear();
        self.last_clear_type = None;
        self.last_was_rotation = false;
        self.last_kick = None;
        self.action_text_timer = Duration::zero();
        assert(self@.events =~= Seq::<EventView>::empty());
        proof {
            use_type_invariant(&self.bag);
            self.bag.lemma_upcoming();
            let first = fresh_piece(self@.upcoming[0]);
            lemma_spawn_fits_empty(first.piece_type);
        }
        self.spawn_piece();
    }

    /// Draws the next piece and puts it in play. If it does not fit where
    /// pieces appear, the game is over.
    fn spawn_piece(&mut self)
        requires
            old(self).bag.drawn() < usize::MAX,
        ensures
            final(self)@.extends(old(self)@.after_spawn()),
    {
        proof {
            use_type_invariant(&self.bag);
            self.bag.lemma_upcoming();
        }
        let piece_type = self.bag.next(&mut self.rng);
        let piece = Piece::new(piece_type);
        proof {
            use_type_invariant(&self.bag);
            self.bag.lemma_upcoming();
        }
        if self.board.is_blocked(&piece) {
            self.game_over = true;
            self.events.push(GameEvent::GameOver);
            assert(self@.events =~= old(self)@.events.push(EventView::GameOver));
            return ;
        }
        self.current_piece = Some(piece);
        self.lock_delay.reset();
        self.gravity.reset();
        self.last_was_rotation = false;
        self.last_kick = None;
    }

    /// Applies one action of the player and reports what it led to. A game
    /// that is over, not started or clearing rows ignores the action.
    pub fn handle_action(&mut self, action: GameAction) -> (result: TickResult)
        requires
            old(self)@.within_limits(),
        ensures
            old(self)@.acts_to(action, final(self)@),
            result == old(self)@.action_result(action),
    {
        proof {
            lemma_extends_self(self@);
        }
        if self.game_over || !self.started {
            return TickResult::none();
        }
        if self.clearing_lines.is_some() {
            return TickResult::none();
        }
        self.stats.inputs += 1;
        proof {
            lemma_extends_self(old(self)@.after_action(action));
        }
        match action {
            GameAction::MoveLeft => self.do_move_left(),
            GameAction::MoveRight => self.do_move_right(),
            GameAction::SoftDrop => self.do_soft_drop(),
            GameAction::HardDrop => self.do_hard_drop(),
            GameAction::RotateCW => self.do_rotate_cw(),
            GameAction::RotateCCW => self.do_rotate_ccw(),
            GameAction::Rotate180 => self.do_rotate_180(),
            GameAction::Hold => self.do_hold(),
            GameAction::SoftDropRelease => {
                self.gravity.soft_dropping = false;
                TickResult::none()
            },
        }
    }

    /// Lets `dt` pass. A running clear animation takes the whole step: once
    /// it is over, the rows are removed and the next piece appears.
    /// Otherwise gravity moves the piece, a piece whose lock timer runs out
    /// locks, and if none locks, garbage that arrives comes onto the board,
    /// each line with a gap in a column that chance and the messiness pick.
    pub fn update(&mut self, dt: Duration) -> (result: TickResult)
        requires
            old(self)@.within_limits(),
            old(self)@.time_fits(dt),
        ensures
            old(self)@.steps_to(dt, final(self)@),
            result == old(self)@.update_result(dt),
    {
        let ghost start = self@;
        // Where no garbage comes onto the board, any allowed gaps bear
        // witness to the step; the last gap repeated is always allowed.
        let last_gap = self.garbage.last_gap();
        let ghost idle_gaps = Seq::new(
            garbage::arrived(start.garbage, dt) as nat,
            |i: int| last_gap,
        );
        proof {
            garbage::lemma_arrived_bound(start.garbage, dt);
        }
        if self.game_over || !self.started {
            proof {
                lemma_extends_self(self@);
                assert(self@.extends(start.after_update(dt, idle_gaps)));
            }
            return TickResult::none();
        }
        self.tick_clock(dt);
        if self.clearing_lines.is_some() {
            self.tick_animation(dt);
            proof {
                assert(self@.extends(start.after_update(dt, idle_gaps)));
            }
            return TickResult::none();
        }
        if let Some(current) = self.current_piece {
            if self.apply_gravity(current, dt) {
                proof {
                    assert(self@.scoring.score <= start.scoring.score + 20);
                    assert(self@.max_gain() == start.max_gain());
                }
                let result = self.lock_current_piece();
                proof {
                    assert(self@.extends(start.after_update(dt, idle_gaps)));
                }
                return result;
            }
        }
        let gaps = self.receive_garbage(dt);
        proof {
            lemma_extends_self(self@);
            assert(self@.extends(start.after_update(dt, gaps@)));
        }
        TickResult::none()
    }

    /// Takes `actions` one after the other and then a step of `dt`, as far
    /// as the counters and clocks have room: before each action and before
    /// the step the room is tested, and where it is missing nothing more is
    /// taken. Returns whether all of it was taken.
    pub fn advance(&mut self, actions: &[GameAction], dt: Duration) -> (done: bool)
        ensures
            old(self)@.advances_to(actions@, dt, done, final(self)@),
    {
        let mut i: usize = 0;
        while i < actions.len()
            invariant
                i <= actions@.len(),
                old(self)@.reaches(actions@, i as int, self@),
            decreases actions@.len() - i,
        {
            if !self.can_act() {
                return false;
            }
            let ghost prev = self@;
            self.handle_action(actions[i]);
            assert(old(self)@.reaches(actions@, i + 1, self@)) by {
                assert(old(self)@.reaches(actions@, i + 1 - 1, prev) && prev.within_limits()
                    && prev.acts_to(actions@[i + 1 - 1], self@));
            }
            i += 1;
        }
        if !self.can_update(dt) {
            return false;
        }
        let ghost mid = self@;
        self.update(dt);
        assert(old(self)@.reaches(actions@, actions@.len() as int, mid) && mid.within_limits()
            && mid.time_fits(dt) && mid.steps_to(dt, self@));
        true
    }

    /// Takes `dt` into the clock and into the timer of the action text.
    fn tick_clock(&mut self, dt: Duration)
        requires
            old(self).stats.time.nanos + dt.nanos <= u128::MAX,
        ensures
            final(self)@ == old(self)@.after_clock(dt),
    {
        self.stats.time = Duration::from_nanos(self.stats.time.nanos + dt.nanos);
        if self.action_text_timer.nanos > 0 {
            self.action_text_timer = self.action_text_timer.saturating_sub(dt);
            if self.action_text_timer.is_zero() {
                self.last_clear_type = None;
            }
        }
    }

    /// Takes `dt` into a running clear animation.
    fn tick_animation(&mut self, dt: Duration)
        requires
            old(self).bag.drawn() < usize::MAX,
            old(self).clearing_lines is Some,
        ensures
            final(self)@.extends(old(self)@.after_animation_step(dt)),
    {
        if let Some((lines, timer)) = self.clearing_lines.take() {
            if dt.nanos >= timer.nanos {
                self.board.clear_lines(lines.as_slice());
                self.spawn_piece();
            } else {
                self.clearing_lines = Some((lines, Duration::from_nanos(timer.nanos - dt.nanos)));
                proof {
                    lemma_extends_self(self@);
                }
            }
        }
    }

    /// Lets gravity move the piece in play for `dt`, takes into the lock
    /// timer whether it rests, and says whether it must lock now.
    fn apply_gravity(&mut self, current: Piece, dt: Duration) -> (must_lock: bool)
        requires
            old(self).current_piece == Some(current),
            old(self).gravity.accumulator.nanos + dt.nanos <= u128::MAX,
            old(self).scoring.score + 20 <= u64::MAX,
        ensures
            0 <= old(self)@.gravity_rows(current, dt) <= 20,
            must_lock == old(self)@.after_gravity(current, dt).lock_due(dt),
            final(self)@ == if final(self).lock_delay.grounded {
                GameView {
                    lock_delay: old(self)@.after_gravity(current, dt).lock_delay.after_tick(dt),
                    ..old(self)@.after_gravity(current, dt)
                }
            } else {
                old(self)@.after_gravity(current, dt)
            },
            final(self).lock_delay.grounded == old(self)@.after_gravity(
                current,
                dt,
            ).lock_delay.grounded,
    {
        let drops = self.gravity.tick(dt);
        let mut piece = current;
        let mut fallen: u32 = 0;
        proof {
            lemma_drop_distance(self@, current);
        }
        while fallen < drops
            invariant
                fallen <= drops <= 20,
                drops == gravity::drops_due(
                    old(self).gravity.accumulator.nanos + dt.nanos,
                    old(self).gravity.spec_interval(),
                ),
                piece == movement::shifted(current, 0, -(fallen as int)),
                movement::landing_y(
                    self.board@,
                    piece.piece_type,
                    piece.x as int,
                    piece.y as int,
                    piece.rotation,
                ) == movement::landing_y(
                    self.board@,
                    current.piece_type,
                    current.x as int,
                    current.y as int,
                    current.rotation,
                ),
                fallen <= old(self)@.drop_distance(current) <= 41,
                *self == (GameState {
                    gravity: self.gravity,
                    scoring: self.scoring,
                    last_was_rotation: self.last_was_rotation,
                    ..*old(self)
                }),
                self.gravity == (Gravity {
                    accumulator: self.gravity.accumulator,
                    ..old(self).gravity
                }),
                self.gravity.accumulator.nanos == (old(self).gravity.accumulator.nanos + dt.nanos)
                    % old(self).gravity.spec_interval(),
                self.last_was_rotation == if fallen > 0 {
                    false
                } else {
                    old(self).last_was_rotation
                },
                self.scoring == if self.gravity.soft_dropping {
                    Scoring {
                        score: (old(self).scoring.score + fallen) as u64,
                        ..old(self).scoring
                    }
                } else {
                    old(self).scoring
                },
                old(self).scoring.score + 20 <= u64::MAX,
            ensures
                fallen == old(self)@.gravity_rows(current, dt)
            ,
            decreases drops - fallen,
        {
            proof {
                movement::lemma_landing(
                    self.board@,
                    piece.piece_type,
                    piece.x as int,
                    piece.y as int,
                    piece.rotation,
                );
                if movement::can_shift(self.board@, piece, 0, -1) {
                    movement::lemma_fit_range(
                        self.board@,
                        piece.piece_type,
                        piece.x as int,
                        piece.y - 1,
                        piece.rotation,
                    );
                }
            }
            let ghost above = piece;
            if !movement::try_move_down(&self.board, &mut piece) {
                assert(movement::landing_y(
                    self.board@,
                    piece.piece_type,
                    piece.x as int,
                    piece.y as int,
                    piece.rotation,
                ) == piece.y);
                break ;
            }
            assert(movement::landing_y(
                self.board@,
                above.piece_type,
                above.x as int,
                above.y as int,
                above.rotation,
            ) == movement::landing_y(
                self.board@,
                piece.piece_type,
                piece.x as int,
                piece.y as int,
                piece.rotation,
            ));
            proof {
                movement::lemma_landing(
                    self.board@,
                    piece.piece_type,
                    piece.x as int,
                    piece.y as int,
                    piece.rotation,
                );
            }
            fallen += 1;
            self.last_was_rotation = false;
            if self.gravity.soft_dropping {
                self.scoring.add_soft_drop(1);
            }
        }
        self.current_piece = Some(piece);

        let grounded = is_grounded(&self.board, &piece);
        self.lock_delay.start_if_grounded(grounded);
        grounded && self.lock_delay.tick(dt)
    }

    /// Takes `dt` into the garbage queue and puts the lines that arrive onto
    /// the board. Returns the gap columns that were picked for them.
    fn receive_garbage(&mut self, dt: Duration) -> (gaps: Ghost<Seq<usize>>)
        requires
            old(self).clearing_lines is None,
            old(self).stats.garbage_received + old(self).garbage.spec_pending() <= u32::MAX,
        ensures
            gaps@.len() == garbage::arrived(old(self)@.garbage, dt),
            gaps_allowed(old(self)@.garbage_settings, gaps@),
            final(self)@ == old(self)@.after_garbage(dt, gaps@),
    {
        let ghost start = self@;
        let ghost mut gaps: Seq<usize> = Seq::empty();
        proof {
            garbage::lemma_arrived_bound(start.garbage, dt);
            garbage::lemma_total_nonnegative(start.garbage);
        }
        let ready_garbage = self.garbage.tick(dt);
        if ready_garbage > 0 && self.clearing_lines.is_none() {
            let mut i: u32 = 0;
            while i < ready_garbage
                invariant
                    i <= ready_garbage,
                    gaps.len() == i,
                    gaps_allowed(start.garbage_settings, gaps),
                    self.board@ == with_garbage(start.board, gaps),
                    self.garbage@ == garbage::travelling(start.garbage, dt),
                    self.garbage.settings() == (
                        start.garbage_settings.0,
                        start.garbage_settings.1,
                        if i > 0 {
                            gaps.last()
                        } else {
                            start.garbage_settings.2
                        },
                    ),
                    *self == (GameState {
                        board: self.board,
                        garbage: self.garbage,
                        rng: self.rng,
                        ..*old(self)
                    }),
                decreases ready_garbage - i,
            {
                let gap = self.garbage.gap_column(&mut self.rng);
                self.board.add_garbage(1, gap);
                proof {
                    let next = gaps.push(gap);
                    assert(next.drop_last() =~= gaps);
                    assert forall|k: int| 0 <= k < next.len() implies (#[trigger] next[k])
                        < BOARD_WIDTH && (start.garbage_settings.1 == 0 ==> next[k]
                        == start.garbage_settings.2) by {
                        if k < gaps.len() {
                            assert(next[k] == gaps[k]);
                        } else if i > 0 {
                            assert(gaps[i - 1] == gaps.last());
                        }
                    }
                    gaps = next;
                }
                i += 1;
            }
            self.stats.garbage_received += ready_garbage;
            self.events.push(GameEvent::GarbageReceived(ready_garbage));
            assert(self@.events =~= start.events.push(EventView::GarbageReceived(ready_garbage)));
            if let Some(piece) = self.current_piece {
                if !self.board.piece_fits(&piece) {
                    self.game_over = true;
                    self.events.push(GameEvent::GameOver);
                    assert(self@.events =~= start.events.push(
                        EventView::GarbageReceived(ready_garbage),
                    ).push(EventView::GameOver));
                }
            }
        }
        Ghost(gaps)
    }

    fn do_move_left(&mut self) -> (result: TickResult)
        ensures
            final(self)@ == old(self)@.after_shift(-1),
            result == no_result(),
    {
        if let Some(current) = self.current_piece {
            let mut piece = current;
            if movement::try_move_left(&self.board, &mut piece) {
                self.current_piece = Some(piece);
                self.last_was_rotation = false;
                if is_grounded(&self.board, &piece) {
                    self.lock_delay.try_reset();
                }
            }
        }
        TickResult::none()
    }

    fn do_move_right(&mut self) -> (result: TickResult)
        ensures
            final(self)@ == old(self)@.after_shift(1),
            result == no_result(),
    {
        if let Some(current) = self.current_piece {
            let mut piece = current;
            if movement::try_move_right(&self.board, &mut piece) {
                self.current_piece = Some(piece);
                self.last_was_rotation = false;
                if is_grounded(&self.board, &piece) {
                    self.lock_delay.try_reset();
                }
            }
        }
        TickResult::none()
    }

    fn do_soft_drop(&mut self) -> (result: TickResult)
        requires
            old(self).scoring.score < u64::MAX,
        ensures
            final(self)@ == old(self)@.after_soft_drop(),
            result == no_result(),
    {
        self.gravity.soft_dropping = true;
        if let Some(current) = self.current_piece {
            let mut piece = current;
            if movement::try_move_down(&self.board, &mut piece) {
                self.current_piece = Some(piece);
                self.last_was_rotation = false;
                self.scoring.add_soft_drop(1);
                self.gravity.reset();
            }
        }
        TickResult::none()
    }

    fn do_hard_drop(&mut self) -> (result: TickResult)
        requires
            old(self)@.lock_limits(),
            old(self).scoring.score + 100 + old(self)@.max_gain() <= u64::MAX,
        ensures
            final(self)@.extends(old(self)@.after_fall().after_lock()),
            result == if old(self).current_piece is Some {
                TickResult { hard_dropped: true, ..old(self)@.after_fall().lock_result() }
            } else {
                no_result()
            },
    {
        if let Some(current) = self.current_piece {
            let mut piece = current;
            proof {
                lemma_drop_distance(self@, current);
            }
            let cells = movement::hard_drop(&self.board, &mut piece);
            self.current_piece = Some(piece);
            self.scoring.add_hard_drop(cells);
            self.events.push(GameEvent::HardDrop { cells });
            assert(self@.events =~= old(self)@.events.push(EventView::HardDrop { cells }));
            assert(self@ == old(self)@.after_fall());
            let mut result = self.lock_current_piece();
            result.hard_dropped = true;
            return result;
        }
        proof {
            lemma_extends_self(self@);
        }
        TickResult::none()
    }

    fn do_rotate_cw(&mut self) -> (result: TickResult)
        ensures
            final(self)@ == old(self)@.after_rotate(1),
            result == no_result(),
    {
        if let Some(current) = self.current_piece {
            let mut piece = current;
            let target = piece.rotation.cw();
            if let Some(kick) = movement::try_rotate(&self.board, &mut piece, target) {
                self.current_piece = Some(piece);
                self.last_was_rotation = true;
                self.last_kick = Some(kick);
                if is_grounded(&self.board, &piece) {
                    self.lock_delay.try_reset();
                }
            }
        }
        TickResult::none()
    }

    fn do_rotate_ccw(&mut self) -> (result: TickResult)
        ensures
            final(self)@ == old(self)@.after_rotate(3),
            result == no_result(),
    {
        if let Some(current) = self.current_piece {
            let mut piece = current;
            let target = piece.rotation.ccw();
            if let Some(kick) = movement::try_rotate(&self.board, &mut piece, target) {
                self.current_piece = Some(piece);
                self.last_was_rotation = true;
                self.last_kick = Some(kick);
                if is_grounded(&self.board, &piece) {
                    self.lock_delay.try_reset();
                }
            }
        }
        TickResult::none()
    }

    fn do_rotate_180(&mut self) -> (result: TickResult)
        ensures
            final(self)@ == old(self)@.after_rotate(2),
            result == no_result(),
    {
        if let Some(current) = self.current_piece {
            let mut piece = current;
            let target = piece.rotation.flip();
            if let Some(kick) = movement::try_rotate(&self.board, &mut piece, target) {
                self.current_piece = Some(piece);
                self.last_was_rotation = true;
                self.last_kick = Some(kick);
                if is_grounded(&self.board, &piece) {
                    self.lock_delay.try_reset();
                }
            }
        }
        TickResult::none()
    }

    fn do_hold(&mut self) -> (result: TickResult)
        requires
            old(self).bag.drawn() < usize::MAX,
        ensures
            final(self)@.extends(old(self)@.after_hold()),
            result == no_result(),
    {
        proof {
            lemma_extends_self(self@);
        }
        if let Some(piece) = self.current_piece {
            let piece_type = piece.piece_type;
            if self.hold.used_this_turn {
                return TickResult::none();
            }
            match self.hold.piece {
                Some(held_type) => {
                    let new_piece = Piece::new(held_type);
                    if !self.board.piece_fits(&new_piece) {
                        return TickResult::none();
                    }
                    let _ = self.hold.hold(piece_type);
                    self.current_piece = Some(new_piece);
                },
                None => {
                    let _ = self.hold.hold(piece_type);
                    self.current_piece = None;
                    self.spawn_piece();
                },
            }
            self.lock_delay.reset();
            self.gravity.reset();
            self.last_was_rotation = false;
            self.last_kick = None;
            proof {
                let model = old(self)@.after_hold();
                assert(self@ == GameView { upcoming: self@.upcoming, ..model });
            }
        }
        TickResult::none()
    }

    /// Locks the piece in play: scores the lock, and either begins the
    /// clearing of the rows it filled or brings the next piece into play.
    fn lock_current_piece(&mut self) -> (result: TickResult)
        requires
            old(self)@.lock_limits(),
            old(self).scoring.score + old(self)@.max_gain() <= u64::MAX,
        ensures
            final(self)@.extends(old(self)@.after_lock()),
            result == old(self)@.lock_result(),
    {
        let piece = match self.current_piece {
            Some(p) => p,
            None => {
                proof {
                    lemma_extends_self(self@);
                }
                return TickResult::none();
            },
        };
        let ghost start = old(self)@;
        let spin = detect_spin(&self.board, &piece, self.last_was_rotation, self.last_kick);

        self.current_piece = None;
        self.board.lock_piece(&piece);
        self.hold.reset_turn();

        if locks_out(&piece) {
            self.stats.pieces_placed += 1;
            self.game_over = true;
            self.events.push(GameEvent::PieceLocked);
            self.events.push(GameEvent::GameOver);
            proof {
                assert(self@.events =~= start.events + seq![
                    EventView::PieceLocked,
                    EventView::GameOver,
                ]);
                lemma_extends_self(self@);
            }
            return TickResult { game_over: true, piece_locked: true, ..TickResult::none() };
        }
        let full_lines = self.board.find_full_lines();
        proof {
            board::lemma_full_rows_bounds(self.board@, BOARD_HEIGHT as int);
        }
        let lines = full_lines.len() as u32;
        let garbage_cleared = self.board.count_garbage_in_rows(full_lines.as_slice());
        let clear_type = ClearType::classify(lines, spin, piece.piece_type);
        let is_pc = lines > 0 && leaves_empty(&self.board, &full_lines);

        proof {
            lemma_gain_bound(start.scoring, clear_type, lines, is_pc);
            scoring::lemma_attack_bound(start.scoring, clear_type, lines, is_pc);
        }
        let (score_gained, attack) = self.scoring.process_clear(&clear_type, lines, is_pc);
        let remaining_attack = if attack > 0 {
            proof {
                garbage::lemma_leftover_bound(self.garbage@, attack as int);
            }
            self.garbage.cancel(attack)
        } else {
            0
        };
        record_lock(
            &mut self.stats,
            &clear_type,
            garbage_cleared as u32,
            is_pc,
            &self.scoring,
            remaining_attack,
        );
        self.gravity.level = self.scoring.level;
        push_lock_events(&mut self.events, is_pc, spin, &self.scoring, &full_lines);

        if !matches!(clear_type, ClearType::NoClear) {
            self.last_clear_type = Some(clear_type);
            self.action_text_timer = Duration::from_nanos(model::ACTION_TEXT_NANOS);
        }
        assert(self@ == start.after_lock_scored(piece));

        if full_lines.len() > 0 {
            self.clearing_lines = Some((full_lines, self.clear_delay));
            proof {
                lemma_extends_self(self@);
            }
        } else {
            self.spawn_piece();
        }
        TickResult {
            lines_cleared: lines,
            clear_type,
            is_perfect_clear: is_pc,
            score_gained,
            attack: remaining_attack,
            piece_locked: true,
            game_over: self.game_over,
            hard_dropped: false,
            spin_type: spin,
        }
    }

    /// Whether every counter that a lock touches has room for it.
    fn has_room_to_lock(&self) -> (ok: bool)
        ensures
            ok == self@.lock_limits(),
    {
        let stats = &self.stats;
        let scoring = &self.scoring;
        assert((scoring.level + 1) * scoring.lines_per_level <= 0x1_0000_0000 * 0x1_0000_0000)
            by (nonlinear_arith)
            requires
                0 <= scoring.level < 0x1_0000_0000,
                0 <= scoring.lines_per_level < 0x1_0000_0000,
        ;
        self.bag.pieces_drawn() < usize::MAX && stats.pieces_placed < u32::MAX
            && stats.garbage_cleared <= u32::MAX - 40 && stats.singles < u32::MAX && stats.doubles
            < u32::MAX && stats.triples < u32::MAX && stats.quads < u32::MAX && stats.tspins
            < u32::MAX && stats.tspin_singles < u32::MAX && stats.tspin_doubles < u32::MAX
            && stats.tspin_triples < u32::MAX && stats.mini_tspins < u32::MAX && stats.all_spins
            < u32::MAX && stats.perfect_clears < u32::MAX && stats.attack_sent <= u32::MAX - 100
            && scoring.combo < i32::MAX && scoring.btb < i32::MAX && scoring.lines_cleared
            <= u32::MAX - 40 && (scoring.level as u128 + 1) * (scoring.lines_per_level as u128)
            <= u32::MAX as u128 && scoring.level < u32::MAX
    }

    /// Whether every counter has room for what one action can add to it.
    /// An action must not be taken when this is false.
    pub fn can_act(&self) -> (ok: bool)
        ensures
            ok == self@.within_limits(),
    {
        if !self.has_room_to_lock() || self.stats.inputs == u32::MAX {
            return false;
        }
        let pending = match self.garbage.checked_pending() {
            Some(lines) => lines,
            None => {
                return false;
            },
        };
        if pending > u32::MAX - self.stats.garbage_received {
            return false;
        }
        let combo: u128 = if self.scoring.combo >= 0 {
            self.scoring.combo as u128 + 1
        } else {
            0
        };
        let chained: u128 = (5100 + 50 * combo) * 3 / 2;
        assert(chained * (self.scoring.level + 1) <= 0x100_0000_0000 * 0x1_0000_0000)
            by (nonlinear_arith)
            requires
                0 <= chained <= 0x100_0000_0000,
                0 <= self.scoring.level < 0x1_0000_0000,
        ;
        let gain: u128 = chained * (self.scoring.level as u128 + 1);
        self.scoring.score as u128 + 100 + gain <= u64::MAX as u128
    }

    /// Whether every counter and clock has room for a step of `dt`. A step
    /// must not be taken when this is false.
    pub fn can_update(&self, dt: Duration) -> (ok: bool)
        ensures
            ok == (self@.within_limits() && self@.time_fits(dt)),
    {
        self.can_act() && dt.nanos <= u128::MAX - self.stats.time.nanos && dt.nanos <= u128::MAX
            - self.gravity.accumulator.nanos
    }

    /// The next three pieces.
    pub fn preview(&self) -> (pieces: Vec<PieceType>)
        ensures
            pieces@ == self@.upcoming.take(PREVIEW_LEN as int),
    {
        self.bag.peek(PREVIEW_LEN)
    }

    /// The row on which the piece in play would come to rest, if there is one.
    pub fn ghost_y(&self) -> (y: Option<i32>)
        ensures
            y == match self.current_piece {
                Some(piece) => Some(
                    movement::landing_y(
                        self.board@,
                        piece.piece_type,
                        piece.x as int,
                        piece.y as int,
                        piece.rotation,
                    ) as i32,
                ),
                None => None,
            },
    {
        match self.current_piece {
            Some(piece) => Some(ghost::ghost_y(&self.board, &piece)),
            None => None,
        }
    }

    /// Whether the stack has come within four rows of the top of the visible rows.
    pub fn is_danger(&self) -> (danger: bool)
        ensures
            danger == (board::max_height_of(self.board@, BOARD_WIDTH as int) >= VISIBLE_HEIGHT
                - 4),
    {
        self.board.max_height() >= VISIBLE_HEIGHT - 4
    }

    /// Hands out the events gathered so far and starts gathering anew.
    pub fn drain_events(&mut self) -> (events: Vec<GameEvent>)
        ensures
            events_view(events@) == old(self)@.events,
            final(self)@ == (GameView { events: Seq::empty(), ..old(self)@ }),
    {
        let mut events: Vec<GameEvent> = Vec::new();
        std::mem::swap(&mut self.events, &mut events);
        assert(self@.events =~= Seq::<EventView>::empty());
        events
    }
}

/// Whether no cell of `piece` lies in a visible row.
fn locks_out(piece: &Piece) -> (all_above: bool)
    ensures
        all_above == is_lockout(*piece),
{
    let offsets = piece::get_cells(piece.piece_type, piece.rotation);
    let ghost cells = piece.spec_cells();
    let mut i: usize = 0;
    while i < 4
        invariant
            i <= 4,
            cells == piece.spec_cells(),
            piece::cells_view(offsets) == piece::shape(piece.piece_type, piece.rotation),
            forall|j: int| 0 <= j < i ==> (#[trigger] cells[j]).1 >= VISIBLE_HEIGHT,
        decreases 4 - i,
    {
        assert(piece::cells_view(offsets)[i as int] == piece::shape(
            piece.piece_type,
            piece.rotation,
        )[i as int]);
        let row: i64 = piece.y as i64 + offsets[i].1 as i64;
        assert(cells[i as int].1 == row);
        if row < VISIBLE_HEIGHT as i64 {
            return false;
        }
        i += 1;
    }
    true
}

/// Whether the board is empty once the listed rows are removed.
fn leaves_empty(board: &Board, rows: &Vec<usize>) -> (empty: bool)
    ensures
        empty == board::grid_is_empty(board::grid_clear(board@, rows@)),
{
    let mut test_board = *board;
    test_board.clear_lines(rows.as_slice());
    test_board.is_empty()
}

/// Counts a clear of the given type.
fn count_clear(stats: &mut Stats, clear_type: &ClearType)
    requires
        old(stats).singles < u32::MAX,
        old(stats).doubles < u32::MAX,
        old(stats).triples < u32::MAX,
        old(stats).quads < u32::MAX,
        old(stats).tspins < u32::MAX,
        old(stats).tspin_singles < u32::MAX,
        old(stats).tspin_doubles < u32::MAX,
        old(stats).tspin_triples < u32::MAX,
        old(stats).mini_tspins < u32::MAX,
        old(stats).all_spins < u32::MAX,
    ensures
        *final(stats) == model::count_clear(*old(stats), *clear_type),
{
    match clear_type {
        ClearType::Single => stats.singles += 1,
        ClearType::Double => stats.doubles += 1,
        ClearType::Triple => stats.triples += 1,
        ClearType::Quad => stats.quads += 1,
        ClearType::TSpin | ClearType::MiniTSpin => stats.tspins += 1,
        ClearType::TSpinSingle => {
            stats.tspin_singles += 1;
            stats.tspins += 1;
        },
        ClearType::TSpinDouble => {
            stats.tspin_doubles += 1;
            stats.tspins += 1;
        },
        ClearType::TSpinTriple => {
            stats.tspin_triples += 1;
            stats.tspins += 1;
        },
        ClearType::MiniTSpinSingle | ClearType::MiniTSpinDouble => {
            stats.mini_tspins += 1;
        },
        ClearType::AllSpin(_) => stats.all_spins += 1,
        ClearType::NoClear => {},
    }
}

/// Takes a lock within sight into the counters.
fn record_lock(
    stats: &mut Stats,
    clear_type: &ClearType,
    garbage_cleared: u32,
    is_perfect_clear: bool,
    after: &Scoring,
    sent: u32,
)
    requires
        old(stats).pieces_placed < u32::MAX,
        old(stats).garbage_cleared + garbage_cleared <= u32::MAX,
        old(stats).singles < u32::MAX,
        old(stats).doubles < u32::MAX,
        old(stats).triples < u32::MAX,
        old(stats).quads < u32::MAX,
        old(stats).tspins < u32::MAX,
        old(stats).tspin_singles < u32::MAX,
        old(stats).tspin_doubles < u32::MAX,
        old(stats).tspin_triples < u32::MAX,
        old(stats).mini_tspins < u32::MAX,
        old(stats).all_spins < u32::MAX,
        old(stats).perfect_clears < u32::MAX,
        old(stats).attack_sent + sent <= u32::MAX,
    ensures
        *final(stats) == model::stats_after_lock(
            *old(stats),
            *clear_type,
            garbage_cleared as int,
            is_perfect_clear,
            *after,
            sent as int,
        ),
{
    stats.pieces_placed += 1;
    stats.garbage_cleared += garbage_cleared;
    count_clear(stats, clear_type);
    if is_perfect_clear {
        stats.perfect_clears += 1;
    }
    stats.score = after.score;
    stats.level = after.level;
    stats.lines_cleared = after.lines_cleared;
    if after.combo >= 0 {
        let combo = after.combo as u32;
        if combo > stats.max_combo {
            stats.max_combo = combo;
        }
    }
    if after.btb >= 0 {
        let btb = after.btb as u32;
        if btb > stats.max_btb {
            stats.max_btb = btb;
        }
    }
    stats.attack_sent += sent;
}

/// Tells the events of a lock within sight.
fn push_lock_events(
    events: &mut Vec<GameEvent>,
    is_perfect_clear: bool,
    spin: SpinType,
    after: &Scoring,
    full_lines: &Vec<usize>,
)
    ensures
        events_view(final(events)@) == events_view(old(events)@) + model::events_of_lock(
            is_perfect_clear,
            spin,
            *after,
            full_lines@,
        ),
{
    let ghost before = events_view(events@);
    events.push(GameEvent::PieceLocked);
    let ghost e0 = events_view(events@);
    assert(e0 =~= before + seq![EventView::PieceLocked]);
    if is_perfect_clear {
        events.push(GameEvent::PerfectClear);
    }
    let ghost e1 = events_view(events@);
    assert(e1 =~= e0 + (if is_perfect_clear {
        seq![EventView::PerfectClear]
    } else {
        seq![]
    }));
    if spin != SpinType::NoSpin {
        events.push(GameEvent::TSpin(spin));
    }
    let ghost e2 = events_view(events@);
    assert(e2 =~= e1 + (if spin != SpinType::NoSpin {
        seq![EventView::TSpin(spin)]
    } else {
        seq![]
    }));
    if after.combo > 0 {
        events.push(GameEvent::Combo(after.combo as u32));
    }
    let ghost e3 = events_view(events@);
    assert(e3 =~= e2 + (if after.combo > 0 {
        seq![EventView::Combo(after.combo as u32)]
    } else {
        seq![]
    }));
    if after.btb > 0 {
        events.push(GameEvent::BackToBack(after.btb as u32));
    }
    let ghost e4 = events_view(events@);
    assert(e4 =~= e3 + (if after.btb > 0 {
        seq![EventView::BackToBack(after.btb as u32)]
    } else {
        seq![]
    }));
    if full_lines.len() > 0 {
        events.push(GameEvent::LinesClear(full_lines.clone()));
    }
    let ghost e5 = events_view(events@);
    assert(e5 =~= e4 + (if full_lines@.len() > 0 {
        seq![EventView::LinesClear(full_lines@)]
    } else {
        seq![]
    }));
    assert(e5 =~= before + model::events_of_lock(is_perfect_clear, spin, *after, full_lines@));
}

/// Every state extends itself.
pub proof fn lemma_extends_self(view: GameView)
    ensures
        view.extends(view),
{
    assert(view.upcoming.subrange(0, view.upcoming.len() as int) =~= view.upcoming);
}

/// A piece falls at most 41 rows in a hard drop.
pub proof fn lemma_drop_distance(view: GameView, piece: Piece)
    ensures
        0 <= view.drop_distance(piece) <= 41,
{
    movement::lemma_landing(
        view.board,
        piece.piece_type,
        piece.x as int,
        piece.y as int,
        piece.rotation,
    );
    let landing = movement::landing_y(
        view.board,
        piece.piece_type,
        piece.x as int,
        piece.y as int,
        piece.rotation,
    );
    if landing < piece.y {
        assert(board::grid_fits(
            view.board,
            piece.piece_type,
            piece.x as int,
            piece.y - 1,
            piece.rotation,
        ));
        movement::lemma_fit_range(
            view.board,
            piece.piece_type,
            piece.x as int,
            piece.y - 1,
            piece.rotation,
        );
    }
}

/// No lock earns more than the bound that the limits of the counters use.
pub proof fn lemma_gain_bound(
    scoring: Scoring,
    clear_type: ClearType,
    lines: u32,
    is_perfect_clear: bool,
)
    ensures
        0 <= scoring.gained(clear_type, lines, is_perfect_clear) <= (5100 + 50 * (
        if scoring.combo >= 0 {
            scoring.combo + 1
        } else {
            0
        })) * 3 / 2 * (scoring.level + 1),
{
    let combo = scoring.next_combo(lines);
    let plain = scoring::spec_base_score(clear_type) + (if is_perfect_clear {
        3500int
    } else {
        0int
    }) + (if combo > 0 {
        50 * combo
    } else {
        0int
    });
    let top = 5100 + 50 * (if scoring.combo >= 0 {
        scoring.combo + 1
    } else {
        0
    });
    assert(0 <= plain <= top);
    let chained = if scoring.next_btb(clear_type, lines) > 0 {
        plain * 3 / 2
    } else {
        plain
    };
    assert(0 <= chained <= top * 3 / 2);
    assert(0 <= chained * (scoring.level + 1) <= (top * 3 / 2) * (scoring.level + 1))
        by (nonlinear_arith)
        requires
            0 <= chained <= top * 3 / 2,
            scoring.level >= 0,
    ;
}

/// Every shape fits on an empty board where pieces appear.
pub proof fn lemma_spawn_fits_empty(piece_type: PieceType)
    ensures
        board::piece_fits_grid(board::empty_grid(), fresh_piece(piece_type)),
{
    let piece = fresh_piece(piece_type);
    let cells = piece.spec_cells();
    assert forall|i: int| 0 <= i < cells.len() implies board::cell_free(
        board::empty_grid(),
        (#[trigger] cells[i]).0,
        cells[i].1,
    ) by {
        piece::lemma_shape_bounds(piece_type, piece.rotation);
        assert(0 <= piece::shape(piece_type, piece.rotation)[i].0 <= 3);
    }
}

} // verus!
