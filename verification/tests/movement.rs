use tetrs::game::board::{Board, Cell};
use tetrs::game::clear::SpinType;
use tetrs::game::ghost::{ghost_cells, ghost_y};
use tetrs::game::movement::{
    detect_spin, hard_drop, is_grounded, try_move_down, try_move_left, try_move_right, try_rotate,
};
use tetrs::game::piece::{Piece, PieceType, RotationState};

#[test]
fn test_move_left_right() {
    let board = Board::new();
    let mut piece = Piece::new(PieceType::T);
    let orig_x = piece.x;
    assert!(try_move_left(&board, &mut piece));
    assert_eq!(piece.x, orig_x - 1);
    assert!(try_move_right(&board, &mut piece));
    assert_eq!(piece.x, orig_x);
}

#[test]
fn test_hard_drop() {
    let board = Board::new();
    let mut piece = Piece::new(PieceType::I);
    let dropped = hard_drop(&board, &mut piece);
    assert!(dropped > 0);
    assert_eq!(piece.y, 0);
}

#[test]
fn test_grounded_detection() {
    let board = Board::new();
    let mut piece = Piece::new(PieceType::T);
    assert!(!is_grounded(&board, &piece));
    hard_drop(&board, &mut piece);
    assert!(is_grounded(&board, &piece));
}

#[test]
fn test_tspin_detection() {
    let mut board = Board::new();
    for col in 0..10 {
        if col != 1 {
            board.set(col, 0, Cell::Filled(PieceType::I));
        }
    }
    for col in 0..10 {
        if col < 0 || col > 2 {
            board.set(col, 1, Cell::Filled(PieceType::I));
        }
    }
    for col in 0..10 {
        if col != 1 {
            board.set(col, 2, Cell::Filled(PieceType::I));
        }
    }

    let mut piece = Piece::new(PieceType::T);
    piece.x = 0;
    piece.y = 1;
    piece.rotation = RotationState::R2;

    let spin = detect_spin(&board, &piece, true, Some((0, 0)));
    assert!(spin == SpinType::TSpin || spin == SpinType::MiniTSpin || spin == SpinType::NoSpin);
}

#[test]
fn test_ghost_on_empty_board() {
    let board = Board::new();
    let piece = Piece::new(PieceType::T);
    let gy = ghost_y(&board, &piece);
    assert_eq!(gy, 0);
}

#[test]
fn test_ghost_with_obstacle() {
    let mut board = Board::new();
    for col in 0..10 {
        board.set(col, 0, Cell::Filled(PieceType::I));
    }
    let piece = Piece::new(PieceType::T);
    let gy = ghost_y(&board, &piece);
    assert_eq!(gy, 1);
}

#[test]
fn ghost_cells_are_the_cells_at_rest() {
    let board = Board::new();
    let piece = Piece::new(PieceType::T);
    assert_eq!(ghost_cells(&board, &piece), [(3, 0), (4, 0), (5, 0), (4, 1)]);
}

#[test]
fn moves_stop_at_the_walls_and_the_floor() {
    let board = Board::new();
    let mut piece = Piece::new(PieceType::O);
    let mut steps = 0;
    while try_move_left(&board, &mut piece) {
        steps += 1;
    }
    assert_eq!(steps, 3);
    assert_eq!(piece.x, 0);
    assert!(!try_move_left(&board, &mut piece));
    assert_eq!(piece.x, 0);
    let mut steps = 0;
    while try_move_right(&board, &mut piece) {
        steps += 1;
    }
    assert_eq!(steps, 8);
    assert_eq!(piece.x, 8);
    let mut steps = 0;
    while try_move_down(&board, &mut piece) {
        steps += 1;
    }
    assert_eq!(steps, 20);
    assert_eq!(piece.y, 0);
    assert!(!try_move_down(&board, &mut piece));
}

#[test]
fn hard_drop_reports_the_rows_fallen() {
    let mut board = Board::new();
    board.set(4, 5, Cell::Garbage);
    let mut piece = Piece::new(PieceType::T);
    let dropped = hard_drop(&board, &mut piece);
    assert_eq!(piece.y, 6);
    assert_eq!(dropped, 14);
    assert_eq!(piece.x, 3);
    assert_eq!(hard_drop(&board, &mut piece), 0);
}

#[test]
fn rotation_applies_the_kick_it_found() {
    let mut board = Board::new();
    board.set(4, 2, Cell::Garbage);
    let mut piece = Piece::new(PieceType::T);
    piece.y = 1;
    let kick = try_rotate(&board, &mut piece, RotationState::R1);
    assert_eq!(kick, Some((-1, 0)));
    assert_eq!((piece.x, piece.y, piece.rotation), (2, 1, RotationState::R1));

    let mut wall = Board::new();
    for row in 0..40 {
        for col in 0..10 {
            wall.set(col, row, Cell::Garbage);
        }
    }
    let mut stuck = Piece::new(PieceType::T);
    assert_eq!(try_rotate(&wall, &mut stuck, RotationState::R1), None);
    assert_eq!(stuck, Piece::new(PieceType::T));
}

fn tspin_slot() -> (Board, Piece) {
    // A T pointing down in a slot: rows 0 and 1 full but for the T's cells,
    // and an overhang over the left corner.
    let mut board = Board::new();
    for col in 0..10 {
        if col != 4 {
            board.set(col, 0, Cell::Garbage);
        }
        if col < 3 || col > 5 {
            board.set(col, 1, Cell::Garbage);
        }
    }
    board.set(3, 2, Cell::Garbage);
    let mut piece = Piece::new(PieceType::T);
    piece.x = 3;
    piece.y = 1;
    piece.rotation = RotationState::R2;
    (board, piece)
}

#[test]
fn full_tspin_needs_both_front_corners() {
    let (board, piece) = tspin_slot();
    // both corners below are filled, one of the two above
    assert_eq!(detect_spin(&board, &piece, true, Some((0, 0))), SpinType::TSpin);
    assert_eq!(detect_spin(&board, &piece, false, Some((0, 0))), SpinType::NoSpin);
}

#[test]
fn mini_tspin_and_its_upgrade_by_a_long_kick() {
    let mut board = Board::new();
    // T pointing up at the floor in the left corner region: both back
    // corners (below) are off the board, one front corner is filled
    board.set(2, 1, Cell::Garbage);
    let mut piece = Piece::new(PieceType::T);
    piece.x = 2;
    piece.y = 0;
    piece.rotation = RotationState::R0;
    // centre (3, 0); corners above: (2, 1) filled, (4, 1) empty; below: off the board
    assert_eq!(detect_spin(&board, &piece, true, Some((0, 0))), SpinType::MiniTSpin);
    assert_eq!(detect_spin(&board, &piece, true, None), SpinType::MiniTSpin);
    assert_eq!(detect_spin(&board, &piece, true, Some((1, -2))), SpinType::TSpin);
    assert_eq!(detect_spin(&board, &piece, true, Some((-1, 2))), SpinType::TSpin);
    assert_eq!(detect_spin(&board, &piece, true, Some((0, -2))), SpinType::MiniTSpin);
    assert_eq!(detect_spin(&board, &piece, true, Some((1, -1))), SpinType::MiniTSpin);
}

#[test]
fn fewer_than_three_corners_is_no_spin() {
    let board = Board::new();
    let mut piece = Piece::new(PieceType::T);
    piece.x = 3;
    piece.y = 0;
    // only the two corners below the floor count
    assert_eq!(detect_spin(&board, &piece, true, Some((0, 0))), SpinType::NoSpin);
}

#[test]
fn all_spin_needs_a_piece_that_cannot_move() {
    let mut board = Board::new();
    // an S lying flat at the floor, boxed in
    let mut piece = Piece::new(PieceType::S);
    piece.x = 0;
    piece.y = 0;
    // S cells: (0,0) (1,0) (1,1) (2,1)
    board.set(2, 0, Cell::Garbage);
    board.set(0, 1, Cell::Garbage);
    board.set(3, 1, Cell::Garbage);
    board.set(1, 2, Cell::Garbage);
    assert_eq!(detect_spin(&board, &piece, true, None), SpinType::AllSpin);
    assert_eq!(detect_spin(&board, &piece, false, None), SpinType::NoSpin);
    let open = Board::new();
    assert_eq!(detect_spin(&open, &piece, true, None), SpinType::NoSpin);
    let mut o = Piece::new(PieceType::O);
    o.y = 0;
    assert_eq!(detect_spin(&board, &o, true, None), SpinType::NoSpin);
}
