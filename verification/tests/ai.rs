use tetrs::ai::difficulty::AiDifficulty;
use tetrs::ai::evaluator::evaluate;
use tetrs::ai::placement::{find_best_placement, generate_placements};
use tetrs::ai::AiPlayer;
use tetrs::game::board::{Board, Cell};
use tetrs::game::piece::{Piece, PieceType, RotationState};
use tetrs::game::{GameAction, GameState};
use tetrs::time::Duration;

#[test]
fn test_empty_board_evaluation() {
    let board = Board::new();
    let weights = AiDifficulty::Hard.weights();
    let score = evaluate(&board, 0, &weights);
    assert!((score as f64).is_finite());
}

#[test]
fn test_line_clear_improves_score() {
    let board = Board::new();
    let weights = AiDifficulty::Hard.weights();
    let score_no_clear = evaluate(&board, 0, &weights);
    let score_with_clear = evaluate(&board, 4, &weights);
    assert!(score_with_clear > score_no_clear);
}

#[test]
fn test_generate_placements() {
    let board = Board::new();
    let weights = AiDifficulty::Hard.weights();
    let placements = generate_placements(&board, PieceType::T, &weights, false);
    assert!(!placements.is_empty());
}

#[test]
fn test_find_best() {
    let board = Board::new();
    let weights = AiDifficulty::Hard.weights();
    let best = find_best_placement(&board, PieceType::T, None, &weights, false);
    assert!(best.is_some());
}

#[test]
fn evaluation_of_an_empty_board_counts_only_the_walls() {
    let board = Board::new();
    let w = AiDifficulty::Hard.weights();
    // no column is lower than its neighbours, so there is no well; each of
    // the 40 rows has two transitions at the walls, and each of the 10
    // columns has one above the floor
    assert_eq!(evaluate(&board, 0, &w), -5 * 80 - 10 * 10);
    // four lines at 76 and the perfect-clear bonus
    assert_eq!(evaluate(&board, 4, &w), -500 + 4 * 76 + 500);
}

#[test]
fn evaluation_weighs_every_feature() {
    let mut board = Board::new();
    board.set(0, 0, Cell::Garbage);
    board.set(0, 2, Cell::Garbage);
    board.set(2, 0, Cell::Garbage);
    let w = AiDifficulty::Expert.weights();
    // heights 3, 0, 1, 0, ...: aggregate 4, one hole, bumpiness 3 + 1 + 1 = 5
    // wells: column 1 lies between 3 and 1, depth 1
    // column transitions: column 0 has filled, empty, filled, empty: 3;
    // column 2: 1; each of the eight empty columns: 1
    // row transitions: row 0 is X.X.......: 4; row 2 is X.........: 2; row 1 and
    // the 37 rows above: 2 each
    let expected = -51 * 4 - 36 - 18 * 5 + 12 - 12 * (3 + 1 + 8) - 6 * (4 + 2 + 38 * 2);
    assert_eq!(evaluate(&board, 0, &w), expected);
    assert_eq!(evaluate(&board, 2, &w), expected + 2 * 76);
}

#[test]
fn placements_on_an_empty_board_are_resting_positions() {
    let board = Board::new();
    let weights = AiDifficulty::Medium.weights();
    for pt in PieceType::ALL {
        let placements = generate_placements(&board, pt, &weights, false);
        assert!(!placements.is_empty());
        for w in placements.windows(2) {
            assert!(w[0].score >= w[1].score);
        }
        for (i, p) in placements.iter().enumerate() {
            assert_eq!(p.piece_type, pt);
            assert!(!p.use_hold);
            let piece = Piece::new(pt);
            assert!(board.fits_at(&piece, p.x, p.y, p.rotation));
            assert!(!board.fits_at(&piece, p.x, p.y - 1, p.rotation));
            for q in &placements[i + 1..] {
                assert!((p.x, p.rotation) != (q.x, q.rotation));
            }
        }
        let best = find_best_placement(&board, pt, None, &weights, true).unwrap();
        assert_eq!(best, placements[0]);
    }
    // the O fits in nine columns in each of its four orientations
    assert_eq!(generate_placements(&board, PieceType::O, &weights, true).len(), 36);
    // the I lies flat in seven columns twice and stands in ten columns twice
    assert_eq!(generate_placements(&board, PieceType::I, &weights, true).len(), 34);
}

#[test]
fn the_search_fills_a_row_that_lacks_one_cell() {
    let mut board = Board::new();
    for col in 1..10 {
        board.set(col, 0, Cell::Garbage);
    }
    let weights = AiDifficulty::Hard.weights();
    let best = find_best_placement(&board, PieceType::I, None, &weights, false).unwrap();
    // upright in column 0; of the two upright orientations the one that the
    // search tries first
    assert_eq!((best.x, best.y), (-2, 2));
    assert_eq!(best.rotation, RotationState::R1);
    // three cells stay in column 0 after the row is cleared
    let mut after = Board::new();
    for row in 0..3 {
        after.set(0, row, Cell::Filled(PieceType::I));
    }
    assert_eq!(best.score, evaluate(&after, 1, &weights));
}

#[test]
fn the_held_shape_wins_only_if_it_rates_higher() {
    let mut board = Board::new();
    for col in 1..10 {
        board.set(col, 0, Cell::Garbage);
    }
    let weights = AiDifficulty::Hard.weights();
    let own = find_best_placement(&board, PieceType::O, None, &weights, true).unwrap();
    let with_hold =
        find_best_placement(&board, PieceType::O, Some(PieceType::I), &weights, true).unwrap();
    assert!(with_hold.use_hold);
    assert_eq!(with_hold.piece_type, PieceType::I);
    assert!(with_hold.score > own.score);
    let no_hold =
        find_best_placement(&board, PieceType::O, Some(PieceType::I), &weights, false).unwrap();
    assert_eq!(no_hold, own);
    let same =
        find_best_placement(&board, PieceType::I, Some(PieceType::I), &weights, true).unwrap();
    assert!(!same.use_hold);
}

#[test]
fn difficulty_presets() {
    assert_eq!(AiDifficulty::Easy.name(), "Easy");
    assert_eq!(AiDifficulty::Expert.name(), "Expert");
    assert_eq!(AiDifficulty::Medium.description(), "Moderate speed, decent play");
    assert_eq!(AiDifficulty::Easy.think_time(), Duration::from_millis(800));
    assert_eq!(AiDifficulty::Medium.think_time(), Duration::from_millis(400));
    assert_eq!(AiDifficulty::Hard.think_time(), Duration::from_millis(150));
    assert_eq!(AiDifficulty::Expert.think_time(), Duration::from_millis(50));
    assert_eq!(AiDifficulty::Easy.move_speed(), 3);
    assert_eq!(AiDifficulty::Expert.move_speed(), 30);
    assert_eq!(AiDifficulty::Easy.error_rate(), 15);
    assert_eq!(AiDifficulty::Expert.error_rate(), 0);
    assert!(!AiDifficulty::Easy.uses_hold());
    assert!(AiDifficulty::Medium.uses_hold());
    assert_eq!(AiDifficulty::Hard.weights().aggregate_height, -51);
    assert_eq!(AiDifficulty::Easy.weights().perfect_clear, 200);
}

fn game_with(piece: Piece) -> GameState {
    let mut game = GameState::new();
    game.start();
    game.current_piece = Some(piece);
    game
}

#[test]
fn the_controller_thinks_turns_moves_and_drops() {
    let mut ai = AiPlayer::new(AiDifficulty::Expert);
    let mut game = game_with(Piece::new(PieceType::I));
    for col in 1..10 {
        game.board.set(col, 0, Cell::Garbage);
    }
    // the first step picks the target and thinks
    assert_eq!(ai.think(&game, Duration::from_millis(20)), vec![]);
    let target = ai.target.unwrap();
    assert_eq!((target.x, target.rotation), (-2, RotationState::R1));
    assert_eq!(ai.think_timer, Duration::from_millis(30));
    assert_eq!(ai.think(&game, Duration::from_millis(30)), vec![]);
    assert_eq!(ai.think_timer, Duration::zero());
    // a thirtieth of a second per move
    assert_eq!(ai.think(&game, Duration::from_millis(20)), vec![]);
    assert_eq!(
        ai.think(&game, Duration::from_millis(20)),
        vec![GameAction::RotateCW]
    );
    game.handle_action(GameAction::RotateCW);
    let mut actions = Vec::new();
    for _ in 0..20 {
        let step = ai.think(&game, Duration::from_millis(34));
        for action in &step {
            game.handle_action(*action);
        }
        actions.extend(step);
        if ai.target.is_none() {
            break;
        }
    }
    assert_eq!(
        actions,
        vec![
            GameAction::MoveLeft,
            GameAction::MoveLeft,
            GameAction::MoveLeft,
            GameAction::MoveLeft,
            GameAction::MoveLeft,
            GameAction::HardDrop
        ]
    );
    assert_eq!(game.stats.singles, 1);
}

#[test]
fn the_controller_turns_the_short_way() {
    let cases = [
        (RotationState::R0, RotationState::R1, GameAction::RotateCW),
        (RotationState::R0, RotationState::R2, GameAction::Rotate180),
        (RotationState::R0, RotationState::R3, GameAction::RotateCCW),
        (RotationState::R3, RotationState::R0, GameAction::RotateCW),
        (RotationState::R1, RotationState::R0, GameAction::RotateCCW),
        (RotationState::R3, RotationState::R1, GameAction::Rotate180),
    ];
    for (from, to, action) in cases {
        let mut ai = AiPlayer::new(AiDifficulty::Hard);
        let mut piece = Piece::new(PieceType::T);
        piece.rotation = from;
        let mut target = generate_placements(
            &Board::new(),
            PieceType::T,
            &AiDifficulty::Hard.weights(),
            false,
        )[0];
        target.rotation = to;
        ai.set_target(Some(target));
        ai.think_timer = Duration::zero();
        assert_eq!(ai.step(&piece, false, Duration::from_millis(100)), vec![action]);
    }
}

#[test]
fn the_controller_holds_and_drops_without_a_target() {
    let mut ai = AiPlayer::new(AiDifficulty::Hard);
    let piece = Piece::new(PieceType::T);
    let mut target = generate_placements(
        &Board::new(),
        PieceType::T,
        &AiDifficulty::Hard.weights(),
        true,
    )[0];
    target.use_hold = true;
    ai.set_target(Some(target));
    assert_eq!(ai.think_timer, Duration::from_millis(150));
    ai.think_timer = Duration::zero();
    assert_eq!(
        ai.step(&piece, false, Duration::from_millis(1)),
        vec![GameAction::Hold]
    );
    assert!(ai.target.is_none());
    assert_eq!(
        ai.step(&piece, false, Duration::from_millis(1)),
        vec![GameAction::HardDrop]
    );
    // once the slot is used the target is followed
    ai.target = Some(target);
    let actions = ai.step(&piece, true, Duration::from_millis(100));
    assert_ne!(actions, vec![GameAction::Hold]);
    assert_eq!(actions.len(), 1);
}

#[test]
fn the_controller_rests_when_there_is_nothing_to_move() {
    let mut ai = AiPlayer::new(AiDifficulty::Easy);
    let mut game = game_with(Piece::new(PieceType::T));
    ai.think(&game, Duration::from_millis(1));
    assert!(ai.target.is_some());
    game.current_piece = None;
    assert_eq!(ai.think(&game, Duration::from_millis(1)), vec![]);
    assert!(ai.target.is_none());
    game.current_piece = Some(Piece::new(PieceType::T));
    game.game_over = true;
    ai.think(&game, Duration::from_millis(1));
    assert!(ai.target.is_none());
}

#[test]
fn mistakes_pick_one_of_the_next_best() {
    let game = game_with(Piece::new(PieceType::L));
    let weights = AiDifficulty::Easy.weights();
    let ranked = generate_placements(&game.board, PieceType::L, &weights, false);
    let mut seen_best = 0;
    let mut seen_other = 0;
    for _ in 0..400 {
        let mut ai = AiPlayer::new(AiDifficulty::Easy);
        ai.think(&game, Duration::from_millis(1));
        let target = ai.target.unwrap();
        if target == ranked[0] {
            seen_best += 1;
        } else {
            assert!(ranked[1..5].contains(&target));
            seen_other += 1;
        }
    }
    assert!(seen_best > 250);
    assert!(seen_other > 10);
    let expert = generate_placements(
        &game.board,
        PieceType::L,
        &AiDifficulty::Expert.weights(),
        false,
    );
    for _ in 0..100 {
        let mut ai = AiPlayer::new(AiDifficulty::Expert);
        ai.think(&game, Duration::from_millis(1));
        assert_eq!(ai.target.unwrap(), expert[0]);
    }
}

#[test]
fn check_attack_reports_what_is_new() {
    let mut ai = AiPlayer::new(AiDifficulty::Hard);
    let mut game = GameState::new();
    game.stats.attack_sent = 5;
    assert_eq!(ai.check_attack(&game), 5);
    assert_eq!(ai.check_attack(&game), 0);
    game.stats.attack_sent = 9;
    assert_eq!(ai.check_attack(&game), 4);
    game.stats.attack_sent = 2;
    assert_eq!(ai.check_attack(&game), 0);
    assert_eq!(ai.last_attack_sent, 2);
    ai.reset();
    assert_eq!(ai, AiPlayer::new(AiDifficulty::Hard));
}
