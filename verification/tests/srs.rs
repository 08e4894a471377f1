use tetrs::game::piece::{PieceType, RotationState};
use tetrs::game::srs::get_kicks;

#[test]
fn test_o_piece_no_kicks() {
    let kicks = get_kicks(PieceType::O, RotationState::R0, RotationState::R1);
    assert_eq!(kicks.len(), 1);
    assert_eq!(kicks[0], (0, 0));
}

#[test]
fn test_normal_kicks_have_5_entries() {
    let kicks = get_kicks(PieceType::T, RotationState::R0, RotationState::R1);
    assert_eq!(kicks.len(), 5);
    assert_eq!(kicks[0], (0, 0));
}

#[test]
fn test_i_kicks_have_5_entries() {
    let kicks = get_kicks(PieceType::I, RotationState::R0, RotationState::R1);
    assert_eq!(kicks.len(), 5);
}

#[test]
fn test_180_kicks_have_6_entries() {
    let kicks = get_kicks(PieceType::T, RotationState::R0, RotationState::R2);
    assert_eq!(kicks.len(), 6);
}

#[test]
fn kick_tables_have_the_right_shape_for_every_turn() {
    let states = [
        RotationState::R0,
        RotationState::R1,
        RotationState::R2,
        RotationState::R3,
    ];
    for pt in PieceType::ALL {
        for from in states {
            for to in states {
                let kicks = get_kicks(pt, from, to);
                assert_eq!(kicks[0], (0, 0));
                if pt == PieceType::O || from == to {
                    assert_eq!(kicks.len(), 1);
                } else if from.flip() == to {
                    assert_eq!(kicks.len(), 6);
                } else {
                    assert_eq!(kicks.len(), 5);
                }
            }
        }
    }
}

#[test]
fn kick_tables_hold_the_literal_offsets() {
    assert_eq!(
        get_kicks(PieceType::T, RotationState::R0, RotationState::R1),
        &[(0, 0), (-1, 0), (-1, 1), (0, -2), (-1, -2)]
    );
    assert_eq!(
        get_kicks(PieceType::J, RotationState::R3, RotationState::R0),
        &[(0, 0), (-1, 0), (-1, -1), (0, 2), (-1, 2)]
    );
    assert_eq!(
        get_kicks(PieceType::I, RotationState::R0, RotationState::R1),
        &[(0, 0), (-2, 0), (1, 0), (-2, -1), (1, 2)]
    );
    assert_eq!(
        get_kicks(PieceType::I, RotationState::R2, RotationState::R1),
        &[(0, 0), (1, 0), (-2, 0), (1, -2), (-2, 1)]
    );
    assert_eq!(
        get_kicks(PieceType::S, RotationState::R0, RotationState::R2),
        &[(0, 0), (0, 1), (1, 1), (-1, 1), (1, 0), (-1, 0)]
    );
    assert_eq!(
        get_kicks(PieceType::I, RotationState::R1, RotationState::R3),
        &[(0, 0), (0, 1), (0, 2), (0, -1), (0, -2), (-1, 0)]
    );
}
