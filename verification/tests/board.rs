use tetrs::game::board::{Board, Cell, BOARD_HEIGHT, BOARD_WIDTH};
use tetrs::game::piece::{Piece, PieceType, RotationState};

#[test]
fn test_new_board_is_empty() {
    let board = Board::new();
    assert!(board.is_empty());
    assert_eq!(board.max_height(), 0);
    assert_eq!(board.count_holes(), 0);
}

#[test]
fn test_piece_fits_empty_board() {
    let board = Board::new();
    let piece = Piece::new(PieceType::T);
    assert!(board.piece_fits(&piece));
}

#[test]
fn test_collision_detection() {
    let mut board = Board::new();
    for col in 0..BOARD_WIDTH {
        board.set(col as i32, 0, Cell::Filled(PieceType::I));
    }

    let mut piece = Piece::new(PieceType::I);
    piece.y = 0;
    assert!(!board.piece_fits(&piece));
}

#[test]
fn test_line_clear() {
    let mut board = Board::new();
    for col in 0..BOARD_WIDTH {
        board.set(col as i32, 0, Cell::Filled(PieceType::I));
    }
    let full = board.find_full_lines();
    assert_eq!(full, vec![0]);

    board.clear_lines(&full);
    for col in 0..BOARD_WIDTH {
        assert!(board.get(col as i32, 0).is_empty());
    }
}

#[test]
fn test_garbage_insertion() {
    let mut board = Board::new();
    board.set(5, 0, Cell::Filled(PieceType::T));
    board.add_garbage(2, 3);

    assert!(board.get(5, 2).is_occupied());
    assert!(matches!(board.get(0, 0), Cell::Garbage));
    assert!(board.get(3, 0).is_empty());
    assert!(matches!(board.get(0, 1), Cell::Garbage));
    assert!(board.get(3, 1).is_empty());
}

#[test]
fn test_column_height() {
    let mut board = Board::new();
    board.set(0, 0, Cell::Filled(PieceType::I));
    board.set(0, 1, Cell::Filled(PieceType::I));
    board.set(0, 2, Cell::Filled(PieceType::I));
    assert_eq!(board.column_height(0), 3);
    assert_eq!(board.column_height(1), 0);
}

#[test]
fn test_holes_count() {
    let mut board = Board::new();
    board.set(0, 1, Cell::Filled(PieceType::I));
    assert_eq!(board.count_holes(), 1);
}

#[test]
fn test_srs_rotation() {
    let board = Board::new();
    let piece = Piece::new(PieceType::T);
    let result = board.try_rotate(&piece, RotationState::R1);
    assert!(result.is_some());
    assert_eq!(result.unwrap(), (0, 0));
}

#[test]
fn out_of_bounds_reads_solid_and_writes_nothing() {
    let mut board = Board::new();
    assert!(board.get(-1, 0).is_occupied());
    assert!(board.get(10, 0).is_occupied());
    assert!(board.get(0, -1).is_occupied());
    assert!(board.get(0, 40).is_occupied());
    assert_eq!(board.get(-1, 0), Cell::Filled(PieceType::I));
    board.set(-1, 0, Cell::Garbage);
    board.set(10, 3, Cell::Garbage);
    board.set(2, 40, Cell::Garbage);
    assert!(board.is_empty());
}

#[test]
fn lock_piece_fills_its_four_cells() {
    let mut board = Board::new();
    let mut piece = Piece::new(PieceType::T);
    piece.y = 0;
    board.lock_piece(&piece);
    assert_eq!(board.get(3, 0), Cell::Filled(PieceType::T));
    assert_eq!(board.get(4, 0), Cell::Filled(PieceType::T));
    assert_eq!(board.get(5, 0), Cell::Filled(PieceType::T));
    assert_eq!(board.get(4, 1), Cell::Filled(PieceType::T));
    let mut filled = 0;
    for row in 0..BOARD_HEIGHT {
        for col in 0..BOARD_WIDTH {
            if board.get(col as i32, row as i32).is_occupied() {
                filled += 1;
            }
        }
    }
    assert_eq!(filled, 4);
    assert!(board.is_blocked(&piece));
}

#[test]
fn clear_lines_lets_rows_above_sink_in_order() {
    let mut board = Board::new();
    for col in 0..BOARD_WIDTH {
        board.set(col as i32, 0, Cell::Filled(PieceType::I));
        board.set(col as i32, 2, Cell::Filled(PieceType::O));
    }
    board.set(1, 1, Cell::Filled(PieceType::T));
    board.set(7, 3, Cell::Filled(PieceType::S));
    board.set(4, 4, Cell::Garbage);
    assert_eq!(board.find_full_lines(), vec![0, 2]);

    board.clear_lines(&[0, 2]);
    assert_eq!(board.get(1, 0), Cell::Filled(PieceType::T));
    assert_eq!(board.get(7, 1), Cell::Filled(PieceType::S));
    assert_eq!(board.get(4, 2), Cell::Garbage);
    for row in 3..BOARD_HEIGHT {
        for col in 0..BOARD_WIDTH {
            assert!(board.get(col as i32, row as i32).is_empty());
        }
    }
    assert_eq!(board.column_height(1), 1);
    assert_eq!(board.column_height(7), 2);
    assert_eq!(board.column_height(4), 3);
}

#[test]
fn a_cleared_row_can_hold_what_sank_into_it() {
    let mut board = Board::new();
    for col in 0..BOARD_WIDTH {
        board.set(col as i32, 0, Cell::Filled(PieceType::I));
    }
    board.set(3, 1, Cell::Filled(PieceType::J));
    board.clear_lines(&[0]);
    assert_eq!(board.get(3, 0), Cell::Filled(PieceType::J));
    assert!(board.get(3, 1).is_empty());
}

#[test]
fn clear_lines_with_no_rows_changes_nothing() {
    let mut board = Board::new();
    board.set(2, 5, Cell::Garbage);
    board.clear_lines(&[]);
    assert_eq!(board.get(2, 5), Cell::Garbage);
    board.clear_lines(&[77]);
    assert_eq!(board.get(2, 5), Cell::Garbage);
}

#[test]
fn garbage_rows_have_one_gap_and_lift_the_stack() {
    let mut board = Board::new();
    board.set(5, 0, Cell::Filled(PieceType::T));
    board.set(9, 36, Cell::Filled(PieceType::L));
    board.set(0, 37, Cell::Filled(PieceType::L));
    board.add_garbage(3, 7);
    for row in 0..3 {
        for col in 0..BOARD_WIDTH {
            let cell = board.get(col as i32, row);
            if col == 7 {
                assert_eq!(cell, Cell::Empty);
            } else {
                assert_eq!(cell, Cell::Garbage);
            }
        }
    }
    assert_eq!(board.get(5, 3), Cell::Filled(PieceType::T));
    assert_eq!(board.get(9, 39), Cell::Filled(PieceType::L));
    assert_eq!(board.column_height(0), 3);
    assert_eq!(board.count_garbage_in_rows(&[0, 1, 2, 3]), 3);
}

#[test]
fn add_garbage_of_zero_rows_changes_nothing() {
    let mut board = Board::new();
    board.set(5, 0, Cell::Filled(PieceType::T));
    board.add_garbage(0, 3);
    assert_eq!(board.get(5, 0), Cell::Filled(PieceType::T));
    assert_eq!(board.aggregate_height(), 1);
}

#[test]
fn heights_holes_and_bumpiness() {
    let mut board = Board::new();
    board.set(0, 0, Cell::Garbage);
    board.set(0, 2, Cell::Garbage);
    board.set(1, 0, Cell::Garbage);
    board.set(3, 4, Cell::Garbage);
    assert_eq!(board.column_height(0), 3);
    assert_eq!(board.column_height(1), 1);
    assert_eq!(board.column_height(2), 0);
    assert_eq!(board.column_height(3), 5);
    assert_eq!(board.max_height(), 5);
    assert_eq!(board.aggregate_height(), 9);
    assert_eq!(board.count_holes(), 1 + 4);
    assert_eq!(board.bumpiness(), 2 + 1 + 5 + 5);
    assert!(!board.is_empty());
}

#[test]
fn kicks_are_tried_in_order() {
    let mut board = Board::new();
    let mut piece = Piece::new(PieceType::T);
    piece.x = 3;
    piece.y = 1;
    // The turned T needs (4, 0), (4, 1), (4, 2), (5, 1) unkicked; block one of them.
    board.set(4, 2, Cell::Garbage);
    let kick = board.try_rotate(&piece, RotationState::R1);
    assert_eq!(kick, Some((-1, 0)));
    assert!(board.fits_at(&piece, 2, 1, RotationState::R1));
    assert!(!board.fits_at(&piece, 3, 1, RotationState::R1));
}

#[test]
fn rotation_fails_when_no_kick_fits() {
    let mut board = Board::new();
    for row in 0..BOARD_HEIGHT {
        for col in 0..BOARD_WIDTH {
            board.set(col as i32, row as i32, Cell::Garbage);
        }
    }
    let piece = Piece::new(PieceType::T);
    assert_eq!(board.try_rotate(&piece, RotationState::R1), None);
}
