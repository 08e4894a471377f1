use tetrs::game::hold::Hold;
use tetrs::game::piece::PieceType;

#[test]
fn test_initial_hold() {
    let mut hold = Hold::new();
    assert!(hold.piece.is_none());
    let result = hold.hold(PieceType::T);
    assert_eq!(result, Ok(None));
    assert_eq!(hold.piece, Some(PieceType::T));
}

#[test]
fn test_swap_hold() {
    let mut hold = Hold::new();
    hold.hold(PieceType::T).unwrap();
    hold.reset_turn();
    let result = hold.hold(PieceType::I);
    assert_eq!(result, Ok(Some(PieceType::T)));
    assert_eq!(hold.piece, Some(PieceType::I));
}

#[test]
fn test_double_hold_blocked() {
    let mut hold = Hold::new();
    hold.hold(PieceType::T).unwrap();
    assert!(hold.hold(PieceType::I).is_err());
}

#[test]
fn a_refused_hold_changes_nothing() {
    let mut hold = Hold::new();
    hold.hold(PieceType::T).unwrap();
    assert_eq!(hold.hold(PieceType::I), Err(()));
    assert_eq!(hold.piece, Some(PieceType::T));
    assert!(hold.used_this_turn);
    hold.reset();
    assert_eq!(hold, Hold::new());
}
