//! Moving and turning a piece against the board, and spin detection.

use vstd::prelude::*;
use super::board::{cell_free, grid_fits, rotation_kick, Board, Grid, BOARD_HEIGHT, BOARD_WIDTH};
use super::clear::SpinType;
use super::piece::{shape, Piece, PieceType, RotationState};

verus! {

/// How an attempt to move ended.
#[derive(Debug, Clone, Copy, PartialEq, Eq, Structural)]
pub enum MoveResult {
    Success,
    Failed,
    /// The piece came to rest and was locked.
    Locked,
}

/// The piece moved by (`dx`, `dy`).
pub open spec fn shifted(piece: Piece, dx: int, dy: int) -> Piece {
    Piece { x: (piece.x + dx) as i32, y: (piece.y + dy) as i32, ..piece }
}

/// Whether the piece would fit after a move by (`dx`, `dy`).
pub open spec fn can_shift(g: Grid, piece: Piece, dx: int, dy: int) -> bool {
    grid_fits(g, piece.piece_type, piece.x + dx, piece.y + dy, piece.rotation)
}

/// Whether the piece cannot move down by one row.
pub open spec fn grounded(g: Grid, piece: Piece) -> bool {
    !can_shift(g, piece, 0, -1)
}

/// The row on which a shape at (`x`, `y`) comes to rest when it falls
/// straight down for as long as it fits.
pub open spec fn landing_y(
    g: Grid,
    piece_type: PieceType,
    x: int,
    y: int,
    rotation: RotationState,
) -> int
    decreases y,
{
    if y >= 1 && grid_fits(g, piece_type, x, y - 1, rotation) {
        landing_y(g, piece_type, x, y - 1, rotation)
    } else {
        y
    }
}

/// The piece after a turn to `target`, given the wall kick that was found for it.
pub open spec fn rotated(piece: Piece, target: RotationState, kick: Option<(i32, i32)>) -> Piece {
    match kick {
        Some((dx, dy)) => Piece {
            x: (piece.x + dx) as i32,
            y: (piece.y + dy) as i32,
            rotation: target,
            ..piece
        },
        None => piece,
    }
}

/// A shape that fits has its origin within two columns left of the playfield
/// and within one row above it.
pub proof fn lemma_fit_range(
    g: Grid,
    piece_type: PieceType,
    x: int,
    y: int,
    rotation: RotationState,
)
    requires
        grid_fits(g, piece_type, x, y, rotation),
    ensures
        -2 <= x <= BOARD_WIDTH - 1,
        0 <= y <= BOARD_HEIGHT,
{
    let cells = super::piece::cells_of(piece_type, x, y, rotation);
    assert(cell_free(g, cells[0].0, cells[0].1));
    assert(cell_free(g, cells[1].0, cells[1].1));
    assert(cell_free(g, cells[2].0, cells[2].1));
    assert(cell_free(g, cells[3].0, cells[3].1));
    assert(shape(piece_type, rotation).len() == 4);
}

/// The landing row is not above the start, the shape falls freely down to
/// it, and it cannot fall further.
pub proof fn lemma_landing(g: Grid, piece_type: PieceType, x: int, y: int, rotation: RotationState)
    ensures
        landing_y(g, piece_type, x, y, rotation) <= y,
        y >= 0 ==> landing_y(g, piece_type, x, y, rotation) >= 0,
        !grid_fits(g, piece_type, x, landing_y(g, piece_type, x, y, rotation) - 1, rotation),
        forall|row: int|
            landing_y(g, piece_type, x, y, rotation) <= row < y ==> #[trigger] grid_fits(
                g,
                piece_type,
                x,
                row,
                rotation,
            ),
    decreases y,
{
    if y >= 1 && grid_fits(g, piece_type, x, y - 1, rotation) {
        lemma_landing(g, piece_type, x, y - 1, rotation);
    } else if grid_fits(g, piece_type, x, y - 1, rotation) {
        lemma_fit_range(g, piece_type, x, y - 1, rotation);
    }
}

/// Whether a corner next to the T's centre counts as occupied: it holds a
/// block or lies off the playfield.
pub open spec fn corner_blocked(g: Grid, col: int, row: int) -> bool {
    !cell_free(g, col, row)
}

/// One if the condition holds, else zero.
pub open spec fn one_if(b: bool) -> int {
    if b {
        1
    } else {
        0
    }
}

/// How many of the two corners on the side to which the T points are occupied.
pub open spec fn front_corners(g: Grid, piece: Piece) -> int {
    let cx = piece.x + 1;
    let cy = piece.y as int;
    let top_left = corner_blocked(g, cx - 1, cy + 1);
    let top_right = corner_blocked(g, cx + 1, cy + 1);
    let bottom_right = corner_blocked(g, cx + 1, cy - 1);
    let bottom_left = corner_blocked(g, cx - 1, cy - 1);
    match piece.rotation {
        RotationState::R0 => one_if(top_left) + one_if(top_right),
        RotationState::R1 => one_if(top_right) + one_if(bottom_right),
        RotationState::R2 => one_if(bottom_right) + one_if(bottom_left),
        RotationState::R3 => one_if(top_left) + one_if(bottom_left),
    }
}

/// How many of the two corners on the flat side of the T are occupied.
pub open spec fn back_corners(g: Grid, piece: Piece) -> int {
    let cx = piece.x + 1;
    let cy = piece.y as int;
    let top_left = corner_blocked(g, cx - 1, cy + 1);
    let top_right = corner_blocked(g, cx + 1, cy + 1);
    let bottom_right = corner_blocked(g, cx + 1, cy - 1);
    let bottom_left = corner_blocked(g, cx - 1, cy - 1);
    match piece.rotation {
        RotationState::R0 => one_if(bottom_right) + one_if(bottom_left),
        RotationState::R1 => one_if(top_left) + one_if(bottom_left),
        RotationState::R2 => one_if(top_left) + one_if(top_right),
        RotationState::R3 => one_if(top_right) + one_if(bottom_right),
    }
}

/// Whether a wall kick moved the piece by one column and two rows.
pub open spec fn is_long_kick(kick: Option<(i32, i32)>) -> bool {
    match kick {
        Some((dx, dy)) => (dx == 1 || dx == -1) && (dy == 2 || dy == -2),
        None => false,
    }
}

/// The spin of a T by the corner rule: with fewer than three occupied corners
/// there is none; with both front corners it is a full spin; with both back
/// corners it is a mini spin, which a long kick raises to a full one.
pub open spec fn spec_detect_tspin(
    g: Grid,
    piece: Piece,
    last_kick: Option<(i32, i32)>,
) -> SpinType {
    let front = front_corners(g, piece);
    let back = back_corners(g, piece);
    if front + back < 3 {
        SpinType::NoSpin
    } else if front == 2 {
        SpinType::TSpin
    } else if is_long_kick(last_kick) {
        SpinType::TSpin
    } else {
        SpinType::MiniTSpin
    }
}

/// The spin of any other shape: it cannot move by one cell in any of the four directions.
pub open spec fn spec_detect_allspin(g: Grid, piece: Piece) -> SpinType {
    if !can_shift(g, piece, 0, 1) && !can_shift(g, piece, 0, -1) && !can_shift(g, piece, -1, 0)
        && !can_shift(g, piece, 1, 0) {
        SpinType::AllSpin
    } else {
        SpinType::NoSpin
    }
}

/// The spin that a lock counts as. Only a rotation as the last move can make one.
pub open spec fn spec_detect_spin(
    g: Grid,
    piece: Piece,
    last_was_rotation: bool,
    last_kick: Option<(i32, i32)>,
) -> SpinType {
    if !last_was_rotation {
        SpinType::NoSpin
    } else {
        match piece.piece_type {
            PieceType::T => spec_detect_tspin(g, piece, last_kick),
            PieceType::O => SpinType::NoSpin,
            _ => spec_detect_allspin(g, piece),
        }
    }
}

/// Classifies the spin of `piece` where it stands, given whether its last
/// move was a rotation and which wall kick that rotation used.
pub fn detect_spin(
    board: &Board,
    piece: &Piece,
    last_was_rotation: bool,
    last_kick: Option<(i32, i32)>,
) -> (spin: SpinType)
    ensures
        spin == spec_detect_spin(board@, *piece, last_was_rotation, last_kick),
{
    if !last_was_rotation {
        return SpinType::NoSpin;
    }
    match piece.piece_type {
        PieceType::T => detect_tspin(board, piece, last_kick),
        PieceType::O => SpinType::NoSpin,
        _ => detect_allspin(board, piece),
    }
}

/// The corner rule for the T shape.
fn detect_tspin(board: &Board, piece: &Piece, last_kick: Option<(i32, i32)>) -> (spin: SpinType)
    ensures
        spin == spec_detect_tspin(board@, *piece, last_kick),
{
    let cx: i64 = piece.x as i64 + 1;
    let cy: i64 = piece.y as i64;

    let top_left = is_occupied(board, cx - 1, cy + 1);
    let top_right = is_occupied(board, cx + 1, cy + 1);
    let bottom_right = is_occupied(board, cx + 1, cy - 1);
    let bottom_left = is_occupied(board, cx - 1, cy - 1);

    let (front_a, front_b, back_a, back_b) = match piece.rotation {
        RotationState::R0 => (top_left, top_right, bottom_right, bottom_left),
        RotationState::R1 => (top_right, bottom_right, top_left, bottom_left),
        RotationState::R2 => (bottom_right, bottom_left, top_left, top_right),
        RotationState::R3 => (top_left, bottom_left, top_right, bottom_right),
    };
    let front_count: u32 = count_true(front_a, front_b);
    let back_count: u32 = count_true(back_a, back_b);
    let total = front_count + back_count;

    if total < 3 {
        return SpinType::NoSpin;
    }
    if front_count == 2 && back_count >= 1 {
        return SpinType::TSpin;
    }
    if back_count == 2 && front_count >= 1 {
        if let Some((dx, dy)) = last_kick {
            if (dx == 1 || dx == -1) && (dy == 2 || dy == -2) {
                return SpinType::TSpin;
            }
        }
        return SpinType::MiniTSpin;
    }
    SpinType::NoSpin
}

/// How many of two conditions hold.
fn count_true(a: bool, b: bool) -> (n: u32)
    ensures
        n == one_if(a) + one_if(b),
{
    let mut n: u32 = 0;
    if a {
        n += 1;
    }
    if b {
        n += 1;
    }
    n
}

/// The immobility rule for the shapes other than T and O.
fn detect_allspin(board: &Board, piece: &Piece) -> (spin: SpinType)
    ensures
        spin == spec_detect_allspin(board@, *piece),
{
    let blocked_up = piece.y == i32::MAX || !board.fits_at(
        piece,
        piece.x,
        piece.y + 1,
        piece.rotation,
    );
    let blocked_down = piece.y == i32::MIN || !board.fits_at(
        piece,
        piece.x,
        piece.y - 1,
        piece.rotation,
    );
    let blocked_left = piece.x == i32::MIN || !board.fits_at(
        piece,
        piece.x - 1,
        piece.y,
        piece.rotation,
    );
    let blocked_right = piece.x == i32::MAX || !board.fits_at(
        piece,
        piece.x + 1,
        piece.y,
        piece.rotation,
    );
    proof {
        if can_shift(board@, *piece, 0, 1) {
            lemma_fit_range(board@, piece.piece_type, piece.x as int, piece.y + 1, piece.rotation);
        }
        if can_shift(board@, *piece, 0, -1) {
            lemma_fit_range(board@, piece.piece_type, piece.x as int, piece.y - 1, piece.rotation);
        }
        if can_shift(board@, *piece, -1, 0) {
            lemma_fit_range(board@, piece.piece_type, piece.x - 1, piece.y as int, piece.rotation);
        }
        if can_shift(board@, *piece, 1, 0) {
            lemma_fit_range(board@, piece.piece_type, piece.x + 1, piece.y as int, piece.rotation);
        }
    }
    if blocked_up && blocked_down && blocked_left && blocked_right {
        SpinType::AllSpin
    } else {
        SpinType::NoSpin
    }
}

/// Whether a position holds a block or lies off the playfield.
fn is_occupied(board: &Board, x: i64, y: i64) -> (occupied: bool)
    ensures
        occupied == corner_blocked(board@, x as int, y as int),
{
    if x < 0 || x >= BOARD_WIDTH as i64 || y < 0 || y >= BOARD_HEIGHT as i64 {
        return true;
    }
    board.get(x as i32, y as i32).is_occupied()
}

/// Moves the piece one column to the left if it fits there.
pub fn try_move_left(board: &Board, piece: &mut Piece) -> (moved: bool)
    ensures
        moved == can_shift(board@, *old(piece), -1, 0),
        *final(piece) == if moved {
            shifted(*old(piece), -1, 0)
        } else {
            *old(piece)
        },
{
    proof {
        if can_shift(board@, *piece, -1, 0) {
            lemma_fit_range(board@, piece.piece_type, piece.x - 1, piece.y as int, piece.rotation);
        }
    }
    if piece.x > i32::MIN && board.fits_at(piece, piece.x - 1, piece.y, piece.rotation) {
        piece.x -= 1;
        true
    } else {
        false
    }
}

/// Moves the piece one column to the right if it fits there.
pub fn try_move_right(board: &Board, piece: &mut Piece) -> (moved: bool)
    ensures
        moved == can_shift(board@, *old(piece), 1, 0),
        *final(piece) == if moved {
            shifted(*old(piece), 1, 0)
        } else {
            *old(piece)
        },
{
    proof {
        if can_shift(board@, *piece, 1, 0) {
            lemma_fit_range(board@, piece.piece_type, piece.x + 1, piece.y as int, piece.rotation);
        }
    }
    if piece.x < i32::MAX && board.fits_at(piece, piece.x + 1, piece.y, piece.rotation) {
        piece.x += 1;
        true
    } else {
        false
    }
}

/// Moves the piece one row down if it fits there.
pub fn try_move_down(board: &Board, piece: &mut Piece) -> (moved: bool)
    ensures
        moved == can_shift(board@, *old(piece), 0, -1),
        *final(piece) == if moved {
            shifted(*old(piece), 0, -1)
        } else {
            *old(piece)
        },
{
    proof {
        if can_shift(board@, *piece, 0, -1) {
            lemma_fit_range(board@, piece.piece_type, piece.x as int, piece.y - 1, piece.rotation);
        }
    }
    if piece.y > i32::MIN && board.fits_at(piece, piece.x, piece.y - 1, piece.rotation) {
        piece.y -= 1;
        true
    } else {
        false
    }
}

/// Drops the piece straight down to where it comes to rest and returns the
/// number of rows it fell.
pub fn hard_drop(board: &Board, piece: &mut Piece) -> (dropped: u32)
    ensures
        final(piece).y == landing_y(
            board@,
            old(piece).piece_type,
            old(piece).x as int,
            old(piece).y as int,
            old(piece).rotation,
        ),
        *final(piece) == (Piece { y: final(piece).y, ..*old(piece) }),
        dropped == old(piece).y - final(piece).y,
{
    let start_y = piece.y;
    while piece.y >= 1 && board.fits_at(piece, piece.x, piece.y - 1, piece.rotation)
        invariant
            piece.y <= start_y,
            start_y == old(piece).y,
            *piece == (Piece { y: piece.y, ..*old(piece) }),
            start_y >= 1 ==> piece.y >= 0,
            landing_y(board@, piece.piece_type, piece.x as int, piece.y as int, piece.rotation)
                == landing_y(
                board@,
                old(piece).piece_type,
                old(piece).x as int,
                old(piece).y as int,
                old(piece).rotation,
            ),
        decreases piece.y,
    {
        piece.y -= 1;
    }
    (start_y as i64 - piece.y as i64) as u32
}

/// Turns the piece to `target` with the first wall kick that fits, and
/// returns that kick; leaves the piece alone if none fits.
pub fn try_rotate(board: &Board, piece: &mut Piece, target: RotationState) -> (kick: Option<
    (i32, i32),
>)
    ensures
        kick == rotation_kick(board@, *old(piece), target),
        *final(piece) == rotated(*old(piece), target, kick),
{
    if let Some((dx, dy)) = board.try_rotate(piece, target) {
        proof {
            lemma_kick_fits(board@, *piece, target);
            lemma_fit_range(board@, piece.piece_type, piece.x + dx, piece.y + dy, target);
        }
        piece.x += dx;
        piece.y += dy;
        piece.rotation = target;
        Some((dx, dy))
    } else {
        None
    }
}

/// The wall kick found for a turn is one at which the turned piece fits.
pub proof fn lemma_kick_fits(g: Grid, piece: Piece, target: RotationState)
    ensures
        rotation_kick(g, piece, target) matches Some(kick) ==> grid_fits(
            g,
            piece.piece_type,
            piece.x + kick.0,
            piece.y + kick.1,
            target,
        ),
{
    lemma_first_kick_fits(
        g,
        piece,
        target,
        super::srs::kick_table(piece.piece_type, piece.rotation, target),
        0,
    );
}

proof fn lemma_first_kick_fits(
    g: Grid,
    piece: Piece,
    target: RotationState,
    kicks: Seq<(i32, i32)>,
    start: int,
)
    ensures
        super::board::first_fitting_kick(g, piece, target, kicks, start) matches Some(kick)
            ==> grid_fits(g, piece.piece_type, piece.x + kick.0, piece.y + kick.1, target),
    decreases kicks.len() - start,
{
    if 0 <= start < kicks.len() && !grid_fits(
        g,
        piece.piece_type,
        piece.x + kicks[start].0,
        piece.y + kicks[start].1,
        target,
    ) {
        lemma_first_kick_fits(g, piece, target, kicks, start + 1);
    }
}

/// Whether the piece rests on something: it cannot move down by one row.
pub fn is_grounded(board: &Board, piece: &Piece) -> (on_ground: bool)
    ensures
        on_ground == grounded(board@, *piece),
{
    proof {
        if can_shift(board@, *piece, 0, -1) {
            lemma_fit_range(board@, piece.piece_type, piece.x as int, piece.y - 1, piece.rotation);
        }
    }
    piece.y == i32::MIN || !board.fits_at(piece, piece.x, piece.y - 1, piece.rotation)
}

} // verus!
