use tetrs::game::board::{Board, Cell, BOARD_WIDTH};
use tetrs::game::clear::{ClearType, SpinType};
use tetrs::game::piece::{Piece, PieceType, RotationState};
use tetrs::game::{GameAction, GameEvent, GameState, TickResult};
use tetrs::time::Duration;

#[test]
fn test_game_start() {
    let mut game = GameState::new();
    game.start();
    assert!(game.started);
    assert!(!game.game_over);
    assert!(game.current_piece.is_some());
}

#[test]
fn test_hard_drop_locks() {
    let mut game = GameState::new();
    game.start();
    let result = game.handle_action(GameAction::HardDrop);
    assert!(result.piece_locked);
    assert!(game.current_piece.is_some() || game.game_over);
}

#[test]
fn test_hold() {
    let mut game = GameState::new();
    game.start();
    let first_type = game.current_piece.as_ref().unwrap().piece_type;
    game.handle_action(GameAction::Hold);
    assert_eq!(game.hold.piece, Some(first_type));
    assert!(game.current_piece.is_some());
}

#[test]
fn test_gravity_drops_piece() {
    let mut game = GameState::new();
    game.start();
    let start_y = game.current_piece.as_ref().unwrap().y;
    game.update(Duration::from_millis(1100));
    let end_y = game.current_piece.as_ref().map(|p| p.y).unwrap_or(0);
    assert!(end_y < start_y || game.current_piece.is_none());
}

fn started() -> GameState {
    let mut game = GameState::new();
    game.start();
    game
}

fn fill_row_but(board: &mut Board, row: i32, gap: i32) {
    for col in 0..BOARD_WIDTH as i32 {
        if col != gap {
            board.set(col, row, Cell::Garbage);
        }
    }
}

fn upright_i(x: i32) -> Piece {
    let mut piece = Piece::new(PieceType::I);
    piece.rotation = RotationState::R1;
    piece.x = x - 2;
    piece
}

#[test]
fn a_game_takes_nothing_before_it_starts() {
    let mut game = GameState::new();
    assert!(!game.started);
    assert!(game.current_piece.is_none());
    let result = game.handle_action(GameAction::HardDrop);
    assert_eq!(result, TickResult::none());
    let result = game.update(Duration::from_millis(5000));
    assert_eq!(result, TickResult::none());
    assert_eq!(game.stats.inputs, 0);
    assert_eq!(game.stats.time, Duration::zero());
    assert!(game.board.is_empty());
}

#[test]
fn start_gives_a_fresh_game() {
    let mut game = started();
    game.handle_action(GameAction::HardDrop);
    game.garbage.add(3);
    game.start();
    let piece = game.current_piece.unwrap();
    assert_eq!(piece, Piece::new(piece.piece_type));
    assert!(game.board.is_empty());
    assert_eq!(game.stats.pieces_placed, 0);
    assert_eq!(game.scoring.score, 0);
    assert_eq!(game.garbage.pending(), 0);
    assert!(game.events.is_empty());
    assert_eq!(game.bag.pieces_drawn(), 1);
    assert_eq!(game.preview().len(), 3);
}

#[test]
fn four_rows_at_once_are_a_quad() {
    let mut game = started();
    for row in 0..4 {
        fill_row_but(&mut game.board, row, 0);
    }
    game.current_piece = Some(upright_i(0));
    game.drain_events();
    let result = game.handle_action(GameAction::HardDrop);
    assert!(result.piece_locked);
    assert!(result.hard_dropped);
    assert!(!result.game_over);
    assert_eq!(result.lines_cleared, 4);
    assert_eq!(result.clear_type, ClearType::Quad);
    assert_eq!(result.spin_type, SpinType::NoSpin);
    assert_eq!(result.score_gained, 800 + 3500);
    assert!(result.is_perfect_clear);
    // the piece fell 18 rows, at two points each
    assert_eq!(game.scoring.score, 4300 + 36);
    assert_eq!(game.stats.quads, 1);
    assert_eq!(game.stats.garbage_cleared, 4);
    assert_eq!(game.stats.perfect_clears, 1);
    assert_eq!(game.stats.pieces_placed, 1);
    assert_eq!(game.last_clear_type, Some(ClearType::Quad));

    let events = game.drain_events();
    assert!(matches!(events[0], GameEvent::HardDrop { cells: 18 }));
    assert!(matches!(events[1], GameEvent::PieceLocked));
    assert!(matches!(events[2], GameEvent::PerfectClear));
    match &events[3] {
        GameEvent::LinesClear(rows) => assert_eq!(rows, &vec![0, 1, 2, 3]),
        other => panic!("unexpected event {:?}", other),
    }
    assert_eq!(events.len(), 4);
    assert!(game.events.is_empty());

    // the rows are being cleared: no piece is in play and actions wait
    assert!(game.current_piece.is_none());
    assert!(game.clearing_lines.is_some());
    let waiting = game.handle_action(GameAction::MoveLeft);
    assert_eq!(waiting, TickResult::none());
    assert_eq!(game.stats.inputs, 1);
    game.update(Duration::from_millis(100));
    assert!(game.clearing_lines.is_some());
    game.update(Duration::from_millis(100));
    assert!(game.clearing_lines.is_none());
    assert!(game.board.is_empty());
    assert!(game.current_piece.is_some());
}

#[test]
fn a_quad_scales_with_the_level() {
    let mut game = started();
    for row in 0..4 {
        fill_row_but(&mut game.board, row, 0);
    }
    game.board.set(5, 4, Cell::Garbage);
    game.scoring.level = 2;
    game.scoring.lines_cleared = 20;
    game.current_piece = Some(upright_i(0));
    let result = game.handle_action(GameAction::HardDrop);
    assert_eq!(result.clear_type, ClearType::Quad);
    assert!(!result.is_perfect_clear);
    assert_eq!(result.score_gained, 800 * 3);
    assert_eq!(result.attack, 4);
    assert_eq!(game.stats.attack_sent, 4);
}

#[test]
fn attack_cancels_incoming_garbage_first() {
    let mut game = started();
    for row in 0..4 {
        fill_row_but(&mut game.board, row, 0);
    }
    game.board.set(5, 4, Cell::Garbage);
    game.garbage.add(3);
    game.current_piece = Some(upright_i(0));
    let result = game.handle_action(GameAction::HardDrop);
    assert_eq!(result.attack, 1);
    assert_eq!(game.garbage.pending(), 0);
    assert_eq!(game.stats.attack_sent, 1);
}

#[test]
fn moves_and_turns_change_only_the_piece() {
    let mut game = started();
    game.current_piece = Some(Piece::new(PieceType::T));
    game.handle_action(GameAction::MoveLeft);
    assert_eq!(game.current_piece.unwrap().x, 2);
    game.handle_action(GameAction::MoveRight);
    game.handle_action(GameAction::MoveRight);
    assert_eq!(game.current_piece.unwrap().x, 4);
    assert!(!game.last_was_rotation);
    game.handle_action(GameAction::RotateCW);
    assert_eq!(game.current_piece.unwrap().rotation, RotationState::R1);
    assert!(game.last_was_rotation);
    assert_eq!(game.last_kick, Some((0, 0)));
    game.handle_action(GameAction::Rotate180);
    assert_eq!(game.current_piece.unwrap().rotation, RotationState::R3);
    game.handle_action(GameAction::RotateCCW);
    assert_eq!(game.current_piece.unwrap().rotation, RotationState::R2);
    game.handle_action(GameAction::MoveLeft);
    assert!(!game.last_was_rotation);
    assert_eq!(game.stats.inputs, 7);
    assert!(game.board.is_empty());
    assert!(game.events.is_empty());
}

#[test]
fn a_move_into_the_wall_is_ignored() {
    let mut game = started();
    let mut piece = Piece::new(PieceType::O);
    piece.x = 0;
    game.current_piece = Some(piece);
    game.handle_action(GameAction::RotateCW);
    let result = game.handle_action(GameAction::MoveLeft);
    assert_eq!(result, TickResult::none());
    assert_eq!(game.current_piece.unwrap().x, 0);
    assert!(game.last_was_rotation);
    assert!(game.events.is_empty());
}

#[test]
fn soft_drop_moves_down_for_a_point() {
    let mut game = started();
    game.update(Duration::from_millis(300));
    game.handle_action(GameAction::SoftDrop);
    assert!(game.gravity.soft_dropping);
    assert_eq!(game.current_piece.unwrap().y, 19);
    assert_eq!(game.scoring.score, 1);
    assert_eq!(game.gravity.accumulator, Duration::zero());
    game.handle_action(GameAction::SoftDropRelease);
    assert!(!game.gravity.soft_dropping);
    // while soft dropping, gravity earns a point per row
    game.gravity.soft_dropping = true;
    game.update(Duration::from_millis(100));
    assert_eq!(game.current_piece.unwrap().y, 17);
    assert_eq!(game.scoring.score, 3);
}

#[test]
fn hold_swaps_once_per_piece() {
    let mut game = started();
    let first = game.current_piece.unwrap().piece_type;
    let next = game.preview()[0];
    game.handle_action(GameAction::Hold);
    assert_eq!(game.hold.piece, Some(first));
    assert_eq!(game.current_piece.unwrap(), Piece::new(next));
    game.handle_action(GameAction::MoveLeft);
    game.handle_action(GameAction::Hold);
    assert_eq!(game.hold.piece, Some(first));
    assert_eq!(game.current_piece.unwrap().piece_type, next);
    assert_eq!(game.current_piece.unwrap().x, 2);

    game.handle_action(GameAction::HardDrop);
    let third = game.current_piece.unwrap().piece_type;
    game.handle_action(GameAction::Hold);
    assert_eq!(game.hold.piece, Some(third));
    assert_eq!(game.current_piece.unwrap(), Piece::new(first));
}

#[test]
fn a_hold_that_cannot_come_into_play_is_rolled_back() {
    let mut game = started();
    game.hold.piece = Some(PieceType::I);
    let mut piece = Piece::new(PieceType::O);
    piece.x = 0;
    piece.y = 5;
    game.current_piece = Some(piece);
    // block where the held I would appear
    game.board.set(4, 20, Cell::Garbage);
    let before_hold = game.hold;
    game.handle_action(GameAction::Hold);
    assert_eq!(game.hold, before_hold);
    assert_eq!(game.current_piece, Some(piece));
    assert!(!game.game_over);
}

#[test]
fn a_blocked_spawn_ends_the_game() {
    let mut game = started();
    for col in 0..BOARD_WIDTH as i32 {
        game.board.set(col, 19, Cell::Garbage);
    }
    // whatever comes next needs row 20, which this piece is about to fill
    let mut piece = Piece::new(PieceType::I);
    piece.x = 3;
    game.current_piece = Some(piece);
    game.board.set(0, 20, Cell::Garbage);
    game.board.set(9, 20, Cell::Garbage);
    let result = game.handle_action(GameAction::HardDrop);
    assert!(result.piece_locked);
    assert!(result.game_over);
    assert!(game.game_over);
    assert!(matches!(game.events.last(), Some(GameEvent::GameOver)));
    let after = game.handle_action(GameAction::MoveLeft);
    assert_eq!(after, TickResult::none());
    assert_eq!(game.update(Duration::from_millis(16)), TickResult::none());
}

#[test]
fn a_lock_above_the_visible_rows_ends_the_game() {
    let mut game = started();
    for row in 0..19 {
        game.board.set(4, row, Cell::Garbage);
    }
    game.board.set(4, 19, Cell::Garbage);
    let piece = Piece::new(PieceType::O);
    game.current_piece = Some(piece);
    game.drain_events();
    let result = game.handle_action(GameAction::HardDrop);
    assert!(result.game_over);
    assert!(result.piece_locked);
    assert_eq!(result.lines_cleared, 0);
    assert!(game.game_over);
    assert!(game.current_piece.is_none());
    let events = game.drain_events();
    assert!(matches!(events[0], GameEvent::HardDrop { cells: 0 }));
    assert!(matches!(events[1], GameEvent::PieceLocked));
    assert!(matches!(events[2], GameEvent::GameOver));
    assert_eq!(game.stats.pieces_placed, 1);
}

#[test]
fn gravity_and_lock_delay_lock_a_resting_piece() {
    let mut game = started();
    let kind = game.current_piece.unwrap().piece_type;
    // twenty rows per step and a second per row at level 0
    let result = game.update(Duration::from_millis(20_000));
    assert!(result.piece_locked);
    assert!(!result.hard_dropped);
    assert_eq!(game.stats.pieces_placed, 1);
    assert!(!game.board.is_empty());
    assert_ne!(game.board.column_height(4), 0);
    let _ = kind;

    let mut game = started();
    let mut piece = Piece::new(PieceType::O);
    piece.y = 0;
    game.current_piece = Some(piece);
    let result = game.update(Duration::from_millis(200));
    assert!(!result.piece_locked);
    assert!(game.lock_delay.active);
    assert_eq!(game.lock_delay.timer, Duration::from_millis(300));
    game.handle_action(GameAction::MoveLeft);
    assert_eq!(game.lock_delay.timer, Duration::from_millis(500));
    assert_eq!(game.lock_delay.resets, 1);
    let result = game.update(Duration::from_millis(499));
    assert!(!result.piece_locked);
    let result = game.update(Duration::from_millis(1));
    assert!(result.piece_locked);
    assert_eq!(game.board.get(2, 0), Cell::Filled(PieceType::O));
}

#[test]
fn garbage_arrives_after_its_travel_time() {
    let mut game = started();
    let mut piece = Piece::new(PieceType::O);
    piece.y = 10;
    game.current_piece = Some(piece);
    game.garbage.set_messiness(0);
    game.garbage.add(2);
    game.update(Duration::from_millis(400));
    assert!(game.board.is_empty());
    game.drain_events();
    game.update(Duration::from_millis(100));
    for row in 0..2 {
        for col in 0..BOARD_WIDTH as i32 {
            let expected = if col == 4 { Cell::Empty } else { Cell::Garbage };
            assert_eq!(game.board.get(col, row), expected);
        }
    }
    assert_eq!(game.stats.garbage_received, 2);
    let events = game.drain_events();
    assert!(matches!(events[..], [GameEvent::GarbageReceived(2)]));
    assert!(!game.game_over);
}

#[test]
fn garbage_under_a_resting_piece_ends_the_game() {
    let mut game = started();
    let mut piece = Piece::new(PieceType::O);
    piece.y = 0;
    piece.x = 0;
    game.current_piece = Some(piece);
    game.lock_delay.timer = Duration::from_millis(10_000);
    game.garbage.set_messiness(0);
    game.garbage.set_travel_time(Duration::from_millis(10));
    game.garbage.add(1);
    game.update(Duration::from_millis(10));
    assert!(game.game_over);
    assert!(matches!(game.events.last(), Some(GameEvent::GameOver)));
}

#[test]
fn the_clock_and_the_action_text_run_down() {
    let mut game = started();
    game.last_clear_type = Some(ClearType::Double);
    game.action_text_timer = Duration::from_millis(50);
    game.update(Duration::from_millis(20));
    assert_eq!(game.stats.time, Duration::from_millis(20));
    assert_eq!(game.action_text_timer, Duration::from_millis(30));
    assert_eq!(game.last_clear_type, Some(ClearType::Double));
    game.update(Duration::from_millis(40));
    assert_eq!(game.action_text_timer, Duration::zero());
    assert_eq!(game.last_clear_type, None);
    assert_eq!(game.stats.time, Duration::from_millis(60));
}

#[test]
fn ghost_and_danger() {
    let mut game = started();
    game.current_piece = Some(Piece::new(PieceType::T));
    assert_eq!(game.ghost_y(), Some(0));
    assert!(!game.is_danger());
    game.board.set(0, 15, Cell::Garbage);
    assert!(game.is_danger());
    game.board.set(4, 7, Cell::Garbage);
    assert_eq!(game.ghost_y(), Some(8));
    game.current_piece = None;
    assert_eq!(game.ghost_y(), None);
}

#[test]
fn a_tspin_double_is_told_as_such() {
    let mut game = started();
    // rows 0 and 1 full but for the slot of a T pointing down
    for col in 0..BOARD_WIDTH as i32 {
        if col != 4 {
            game.board.set(col, 0, Cell::Garbage);
        }
        if col < 3 || col > 5 {
            game.board.set(col, 1, Cell::Garbage);
        }
    }
    game.board.set(3, 2, Cell::Garbage);
    let mut piece = Piece::new(PieceType::T);
    piece.x = 3;
    piece.y = 1;
    piece.rotation = RotationState::R2;
    game.current_piece = Some(piece);
    game.last_was_rotation = true;
    game.last_kick = Some((0, 0));
    game.drain_events();
    let result = game.handle_action(GameAction::HardDrop);
    assert_eq!(result.spin_type, SpinType::TSpin);
    assert_eq!(result.clear_type, ClearType::TSpinDouble);
    assert_eq!(result.lines_cleared, 2);
    assert_eq!(result.score_gained, 1200);
    assert_eq!(result.attack, 4);
    assert_eq!(game.stats.tspin_doubles, 1);
    assert_eq!(game.stats.tspins, 1);
    assert_eq!(game.scoring.btb, 0);
    let events = game.drain_events();
    assert!(matches!(events[0], GameEvent::HardDrop { cells: 0 }));
    assert!(matches!(events[1], GameEvent::PieceLocked));
    assert!(matches!(events[2], GameEvent::TSpin(SpinType::TSpin)));
    assert!(matches!(events[3], GameEvent::LinesClear(_)));
}

#[test]
fn advance_takes_the_actions_and_then_the_step() {
    let mut game = started();
    game.current_piece = Some(Piece::new(PieceType::T));
    let done = game.advance(
        &[GameAction::MoveLeft, GameAction::RotateCW, GameAction::MoveLeft],
        Duration::from_millis(1000),
    );
    assert!(done);
    let piece = game.current_piece.unwrap();
    assert_eq!((piece.x, piece.y, piece.rotation), (1, 19, RotationState::R1));
    assert_eq!(game.stats.inputs, 3);
    assert_eq!(game.stats.time, Duration::from_millis(1000));

    assert!(game.advance(&[], Duration::from_millis(1000)));
    assert_eq!(game.current_piece.unwrap().y, 18);
    assert_eq!(game.stats.inputs, 3);
}

#[test]
fn advance_stops_at_the_first_state_without_room() {
    let mut game = started();
    game.current_piece = Some(Piece::new(PieceType::T));
    game.stats.inputs = u32::MAX - 2;
    let done = game.advance(
        &[
            GameAction::MoveLeft,
            GameAction::MoveLeft,
            GameAction::MoveLeft,
            GameAction::MoveLeft,
        ],
        Duration::from_millis(1000),
    );
    assert!(!done);
    assert_eq!(game.current_piece.unwrap().x, 1);
    assert_eq!(game.current_piece.unwrap().y, 20);
    assert_eq!(game.stats.inputs, u32::MAX);
    assert_eq!(game.stats.time, Duration::zero());

    // room for the actions but not for the step
    let mut game = started();
    game.current_piece = Some(Piece::new(PieceType::T));
    game.stats.time = Duration::from_nanos(u128::MAX - 5);
    assert!(!game.advance(&[GameAction::MoveRight], Duration::from_nanos(6)));
    assert_eq!(game.current_piece.unwrap().x, 4);
    assert_eq!(game.stats.time, Duration::from_nanos(u128::MAX - 5));
    assert!(game.advance(&[GameAction::MoveRight], Duration::from_nanos(5)));
    assert_eq!(game.current_piece.unwrap().x, 5);
}
