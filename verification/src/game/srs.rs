//! Wall-kick candidates of the Super Rotation System.
//!
//! A rotation is tried at the piece's position first and then at each listed
//! offset in turn. The quarter-turn lists are the standard ones; the half-turn
//! lists are longer, and the I shape has lists of its own in both cases.

use vstd::prelude::*;
use super::piece::{PieceType, RotationState};

verus! {

/// Quarter-turn candidates for the J, L, S, T and Z shapes.
/// Any other pair of states has the single candidate (0, 0).
pub open spec fn normal_kick_table(from: RotationState, to: RotationState) -> Seq<(i32, i32)> {
    match (from, to) {
        (RotationState::R0, RotationState::R1) => seq![
            (0i32, 0i32),
            (-1i32, 0i32),
            (-1i32, 1i32),
            (0i32, -2i32),
            (-1i32, -2i32),
        ],
        (RotationState::R1, RotationState::R0) => seq![
            (0i32, 0i32),
            (1i32, 0i32),
            (1i32, -1i32),
            (0i32, 2i32),
            (1i32, 2i32),
        ],
        (RotationState::R1, RotationState::R2) => seq![
            (0i32, 0i32),
            (1i32, 0i32),
            (1i32, -1i32),
            (0i32, 2i32),
            (1i32, 2i32),
        ],
        (RotationState::R2, RotationState::R1) => seq![
            (0i32, 0i32),
            (-1i32, 0i32),
            (-1i32, 1i32),
            (0i32, -2i32),
            (-1i32, -2i32),
        ],
        (RotationState::R2, RotationState::R3) => seq![
            (0i32, 0i32),
            (1i32, 0i32),
            (1i32, 1i32),
            (0i32, -2i32),
            (1i32, -2i32),
        ],
        (RotationState::R3, RotationState::R2) => seq![
            (0i32, 0i32),
            (-1i32, 0i32),
            (-1i32, -1i32),
            (0i32, 2i32),
            (-1i32, 2i32),
        ],
        (RotationState::R3, RotationState::R0) => seq![
            (0i32, 0i32),
            (-1i32, 0i32),
            (-1i32, -1i32),
            (0i32, 2i32),
            (-1i32, 2i32),
        ],
        (RotationState::R0, RotationState::R3) => seq![
            (0i32, 0i32),
            (1i32, 0i32),
            (1i32, 1i32),
            (0i32, -2i32),
            (1i32, -2i32),
        ],
        _ => seq![(0i32, 0i32)],
    }
}

/// Quarter-turn candidates for the I shape.
/// Any other pair of states has the single candidate (0, 0).
pub open spec fn i_kick_table(from: RotationState, to: RotationState) -> Seq<(i32, i32)> {
    match (from, to) {
        (RotationState::R0, RotationState::R1) => seq![
            (0i32, 0i32),
            (-2i32, 0i32),
            (1i32, 0i32),
            (-2i32, -1i32),
            (1i32, 2i32),
        ],
        (RotationState::R1, RotationState::R0) => seq![
            (0i32, 0i32),
            (2i32, 0i32),
            (-1i32, 0i32),
            (2i32, 1i32),
            (-1i32, -2i32),
        ],
        (RotationState::R1, RotationState::R2) => seq![
            (0i32, 0i32),
            (-1i32, 0i32),
            (2i32, 0i32),
            (-1i32, 2i32),
            (2i32, -1i32),
        ],
        (RotationState::R2, RotationState::R1) => seq![
            (0i32, 0i32),
            (1i32, 0i32),
            (-2i32, 0i32),
            (1i32, -2i32),
            (-2i32, 1i32),
        ],
        (RotationState::R2, RotationState::R3) => seq![
            (0i32, 0i32),
            (2i32, 0i32),
            (-1i32, 0i32),
            (2i32, 1i32),
            (-1i32, -2i32),
        ],
        (RotationState::R3, RotationState::R2) => seq![
            (0i32, 0i32),
            (-2i32, 0i32),
            (1i32, 0i32),
            (-2i32, -1i32),
            (1i32, 2i32),
        ],
        (RotationState::R3, RotationState::R0) => seq![
            (0i32, 0i32),
            (1i32, 0i32),
            (-2i32, 0i32),
            (1i32, -2i32),
            (-2i32, 1i32),
        ],
        (RotationState::R0, RotationState::R3) => seq![
            (0i32, 0i32),
            (-1i32, 0i32),
            (2i32, 0i32),
            (-1i32, 2i32),
            (2i32, -1i32),
        ],
        _ => seq![(0i32, 0i32)],
    }
}

/// Half-turn candidates for the J, L, S, T and Z shapes.
/// Any other pair of states has the single candidate (0, 0).
pub open spec fn normal_180_kick_table(from: RotationState, to: RotationState) -> Seq<(i32, i32)> {
    match (from, to) {
        (RotationState::R0, RotationState::R2) => seq![
            (0i32, 0i32),
            (0i32, 1i32),
            (1i32, 1i32),
            (-1i32, 1i32),
            (1i32, 0i32),
            (-1i32, 0i32),
        ],
        (RotationState::R2, RotationState::R0) => seq![
            (0i32, 0i32),
            (0i32, -1i32),
            (-1i32, -1i32),
            (1i32, -1i32),
            (-1i32, 0i32),
            (1i32, 0i32),
        ],
        (RotationState::R1, RotationState::R3) => seq![
            (0i32, 0i32),
            (1i32, 0i32),
            (1i32, 2i32),
            (1i32, 1i32),
            (0i32, 2i32),
            (0i32, 1i32),
        ],
        (RotationState::R3, RotationState::R1) => seq![
            (0i32, 0i32),
            (-1i32, 0i32),
            (-1i32, 2i32),
            (-1i32, 1i32),
            (0i32, 2i32),
            (0i32, 1i32),
        ],
        _ => seq![(0i32, 0i32)],
    }
}

/// Half-turn candidates for the I shape.
/// Any other pair of states has the single candidate (0, 0).
pub open spec fn i_180_kick_table(from: RotationState, to: RotationState) -> Seq<(i32, i32)> {
    match (from, to) {
        (RotationState::R0, RotationState::R2) => seq![
            (0i32, 0i32),
            (-1i32, 0i32),
            (-2i32, 0i32),
            (1i32, 0i32),
            (2i32, 0i32),
            (0i32, 1i32),
        ],
        (RotationState::R2, RotationState::R0) => seq![
            (0i32, 0i32),
            (1i32, 0i32),
            (2i32, 0i32),
            (-1i32, 0i32),
            (-2i32, 0i32),
            (0i32, -1i32),
        ],
        (RotationState::R1, RotationState::R3) => seq![
            (0i32, 0i32),
            (0i32, 1i32),
            (0i32, 2i32),
            (0i32, -1i32),
            (0i32, -2i32),
            (-1i32, 0i32),
        ],
        (RotationState::R3, RotationState::R1) => seq![
            (0i32, 0i32),
            (0i32, 1i32),
            (0i32, 2i32),
            (0i32, -1i32),
            (0i32, -2i32),
            (1i32, 0i32),
        ],
        _ => seq![(0i32, 0i32)],
    }
}

/// The ordered candidate offsets, as (columns, rows), for turning a shape
/// from one state to another.
pub open spec fn kick_table(piece_type: PieceType, from: RotationState, to: RotationState) -> Seq<
    (i32, i32),
> {
    if piece_type == PieceType::O {
        seq![(0i32, 0i32)]
    } else if from.turned(2) == to {
        if piece_type == PieceType::I {
            i_180_kick_table(from, to)
        } else {
            normal_180_kick_table(from, to)
        }
    } else if piece_type == PieceType::I {
        i_kick_table(from, to)
    } else {
        normal_kick_table(from, to)
    }
}

/// The first candidate is always the unmoved position. The O shape has that
/// candidate alone; every other shape has five candidates for a quarter turn
/// and six for a half turn; no candidate moves the piece by more than two
/// cells in either direction.
pub proof fn lemma_kick_table_shape(piece_type: PieceType, from: RotationState, to: RotationState)
    ensures
        kick_table(piece_type, from, to).len() >= 1,
        kick_table(piece_type, from, to)[0] == (0i32, 0i32),
        piece_type == PieceType::O ==> kick_table(piece_type, from, to).len() == 1,
        piece_type != PieceType::O && (to == from.turned(1) || to == from.turned(3))
            ==> kick_table(piece_type, from, to).len() == 5,
        piece_type != PieceType::O && to == from.turned(2) ==> kick_table(
            piece_type,
            from,
            to,
        ).len() == 6,
        forall|i: int|
            0 <= i < kick_table(piece_type, from, to).len() ==> -2 <= (#[trigger] kick_table(
                piece_type,
                from,
                to,
            )[i]).0 <= 2 && -2 <= kick_table(piece_type, from, to)[i].1 <= 2,
{
}

/// The ordered wall-kick candidates for turning `piece_type` from `from` to `to`.
pub fn get_kicks(piece_type: PieceType, from: RotationState, to: RotationState) -> (kicks:
    &'static [(i32, i32)])
    ensures
        kicks@ == kick_table(piece_type, from, to),
{
    if piece_type == PieceType::O {
        let kicks: &'static [(i32, i32)] = &[(0, 0)];
        assert(kicks@ =~= seq![(0i32, 0i32)]);
        return kicks;
    }
    let is_180 = from.flip() == to;

    if is_180 {
        if piece_type == PieceType::I {
            return get_i_180_kicks(from, to);
        } else {
            return get_normal_180_kicks(from, to);
        }
    }
    if piece_type == PieceType::I {
        get_i_kicks(from, to)
    } else {
        get_normal_kicks(from, to)
    }
}

/// Quarter-turn candidates for the J, L, S, T and Z shapes.
fn get_normal_kicks(from: RotationState, to: RotationState) -> (kicks: &'static [(i32, i32)])
    ensures
        kicks@ == normal_kick_table(from, to),
{
    let kicks: &'static [(i32, i32)] = match (from, to) {
        (RotationState::R0, RotationState::R1) => &[(0, 0), (-1, 0), (-1, 1), (0, -2), (-1, -2)],
        (RotationState::R1, RotationState::R0) => &[(0, 0), (1, 0), (1, -1), (0, 2), (1, 2)],
        (RotationState::R1, RotationState::R2) => &[(0, 0), (1, 0), (1, -1), (0, 2), (1, 2)],
        (RotationState::R2, RotationState::R1) => &[(0, 0), (-1, 0), (-1, 1), (0, -2), (-1, -2)],
        (RotationState::R2, RotationState::R3) => &[(0, 0), (1, 0), (1, 1), (0, -2), (1, -2)],
        (RotationState::R3, RotationState::R2) => &[(0, 0), (-1, 0), (-1, -1), (0, 2), (-1, 2)],
        (RotationState::R3, RotationState::R0) => &[(0, 0), (-1, 0), (-1, -1), (0, 2), (-1, 2)],
        (RotationState::R0, RotationState::R3) => &[(0, 0), (1, 0), (1, 1), (0, -2), (1, -2)],
        _ => &[(0, 0)],
    };
    assert(kicks@ =~= normal_kick_table(from, to));
    kicks
}

/// Quarter-turn candidates for the I shape.
fn get_i_kicks(from: RotationState, to: RotationState) -> (kicks: &'static [(i32, i32)])
    ensures
        kicks@ == i_kick_table(from, to),
{
    let kicks: &'static [(i32, i32)] = match (from, to) {
        (RotationState::R0, RotationState::R1) => &[(0, 0), (-2, 0), (1, 0), (-2, -1), (1, 2)],
        (RotationState::R1, RotationState::R0) => &[(0, 0), (2, 0), (-1, 0), (2, 1), (-1, -2)],
        (RotationState::R1, RotationState::R2) => &[(0, 0), (-1, 0), (2, 0), (-1, 2), (2, -1)],
        (RotationState::R2, RotationState::R1) => &[(0, 0), (1, 0), (-2, 0), (1, -2), (-2, 1)],
        (RotationState::R2, RotationState::R3) => &[(0, 0), (2, 0), (-1, 0), (2, 1), (-1, -2)],
        (RotationState::R3, RotationState::R2) => &[(0, 0), (-2, 0), (1, 0), (-2, -1), (1, 2)],
        (RotationState::R3, RotationState::R0) => &[(0, 0), (1, 0), (-2, 0), (1, -2), (-2, 1)],
        (RotationState::R0, RotationState::R3) => &[(0, 0), (-1, 0), (2, 0), (-1, 2), (2, -1)],
        _ => &[(0, 0)],
    };
    assert(kicks@ =~= i_kick_table(from, to));
    kicks
}

/// Half-turn candidates for the J, L, S, T and Z shapes.
fn get_normal_180_kicks(from: RotationState, to: RotationState) -> (kicks: &'static [(i32, i32)])
    ensures
        kicks@ == normal_180_kick_table(from, to),
{
    let kicks: &'static [(i32, i32)] = match (from, to) {
        (RotationState::R0, RotationState::R2) => &[
            (0, 0),
            (0, 1),
            (1, 1),
            (-1, 1),
            (1, 0),
            (-1, 0),
        ],
        (RotationState::R2, RotationState::R0) => &[
            (0, 0),
            (0, -1),
            (-1, -1),
            (1, -1),
            (-1, 0),
            (1, 0),
        ],
        (RotationState::R1, RotationState::R3) => &[(0, 0), (1, 0), (1, 2), (1, 1), (0, 2), (0, 1)],
        (RotationState::R3, RotationState::R1) => &[
            (0, 0),
            (-1, 0),
            (-1, 2),
            (-1, 1),
            (0, 2),
            (0, 1),
        ],
        _ => &[(0, 0)],
    };
    assert(kicks@ =~= normal_180_kick_table(from, to));
    kicks
}

/// Half-turn candidates for the I shape.
fn get_i_180_kicks(from: RotationState, to: RotationState) -> (kicks: &'static [(i32, i32)])
    ensures
        kicks@ == i_180_kick_table(from, to),
{
    let kicks: &'static [(i32, i32)] = match (from, to) {
        (RotationState::R0, RotationState::R2) => &[
            (0, 0),
            (-1, 0),
            (-2, 0),
            (1, 0),
            (2, 0),
            (0, 1),
        ],
        (RotationState::R2, RotationState::R0) => &[
            (0, 0),
            (1, 0),
            (2, 0),
            (-1, 0),
            (-2, 0),
            (0, -1),
        ],
        (RotationState::R1, RotationState::R3) => &[
            (0, 0),
            (0, 1),
            (0, 2),
            (0, -1),
            (0, -2),
            (-1, 0),
        ],
        (RotationState::R3, RotationState::R1) => &[
            (0, 0),
            (0, 1),
            (0, 2),
            (0, -1),
            (0, -2),
            (1, 0),
        ],
        _ => &[(0, 0)],
    };
    assert(kicks@ =~= i_180_kick_table(from, to));
    kicks
}

} // verus!
