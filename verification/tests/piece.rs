use tetrs::game::piece::{get_cells, Piece, PieceType, RotationState};

#[test]
fn test_piece_spawn() {
    let piece = Piece::new(PieceType::T);
    assert_eq!(piece.x, 3);
    assert_eq!(piece.y, 20);
    assert_eq!(piece.rotation, RotationState::R0);
}

#[test]
fn test_rotation_cycle() {
    let r = RotationState::R0;
    assert_eq!(r.cw().cw().cw().cw(), RotationState::R0);
    assert_eq!(r.ccw().ccw().ccw().ccw(), RotationState::R0);
    assert_eq!(r.cw(), r.ccw().flip());
}

#[test]
fn test_piece_cells() {
    let piece = Piece::new(PieceType::I);
    let cells = piece.cells();
    assert_eq!(cells[0], (3, 20));
    assert_eq!(cells[1], (4, 20));
    assert_eq!(cells[2], (5, 20));
    assert_eq!(cells[3], (6, 20));
}

#[test]
fn test_o_piece_rotation_invariant() {
    let rotations = [
        RotationState::R0,
        RotationState::R1,
        RotationState::R2,
        RotationState::R3,
    ];
    for i in 0..4 {
        assert_eq!(
            get_cells(PieceType::O, rotations[i]),
            get_cells(PieceType::O, rotations[0])
        );
    }
}

#[test]
fn rotation_round_trip_from_every_state() {
    for r in [
        RotationState::R0,
        RotationState::R1,
        RotationState::R2,
        RotationState::R3,
    ] {
        assert_eq!(r.cw().cw().cw().cw(), r);
        assert_eq!(r.ccw().ccw().ccw().ccw(), r);
        assert_eq!(r.flip().flip(), r);
        assert_eq!(r.cw().ccw(), r);
    }
}

#[test]
fn rotation_index_follows_the_clockwise_cycle() {
    assert_eq!(RotationState::R0.index(), 0);
    assert_eq!(RotationState::R1.index(), 1);
    assert_eq!(RotationState::R2.index(), 2);
    assert_eq!(RotationState::R3.index(), 3);
    assert_eq!(RotationState::R3.cw().index(), 0);
}

#[test]
fn every_shape_has_four_distinct_cells() {
    for pt in PieceType::ALL {
        for r in [
            RotationState::R0,
            RotationState::R1,
            RotationState::R2,
            RotationState::R3,
        ] {
            let cells = get_cells(pt, r);
            for i in 0..4 {
                assert!(0 <= cells[i].0 && cells[i].0 <= 3);
                assert!(-2 <= cells[i].1 && cells[i].1 <= 1);
                for j in (i + 1)..4 {
                    assert_ne!(cells[i], cells[j]);
                }
            }
        }
    }
}

#[test]
fn t_shape_cells_in_each_orientation() {
    assert_eq!(
        get_cells(PieceType::T, RotationState::R0),
        [(0, 0), (1, 0), (2, 0), (1, 1)]
    );
    assert_eq!(
        get_cells(PieceType::T, RotationState::R1),
        [(1, 1), (1, 0), (1, -1), (2, 0)]
    );
    assert_eq!(
        get_cells(PieceType::T, RotationState::R2),
        [(0, 0), (1, 0), (2, 0), (1, -1)]
    );
    assert_eq!(
        get_cells(PieceType::T, RotationState::R3),
        [(1, 1), (1, 0), (1, -1), (0, 0)]
    );
}

#[test]
fn cells_at_moves_the_shape() {
    let piece = Piece::new(PieceType::I);
    let cells = piece.cells_at(0, 5, RotationState::R1);
    assert_eq!(cells, [(2, 6), (2, 5), (2, 4), (2, 3)]);
}
