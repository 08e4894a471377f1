//! The heuristic that rates a board: a weighted sum of its features.

use vstd::prelude::*;
use super::difficulty::EvalWeights;
use crate::game::board::{
    column_height, grid_is_empty, height_sum, holes_of, bumpiness_of, Board, Grid, BOARD_HEIGHT,
    BOARD_WIDTH,
};

verus! {

/// The height of the neighbour of a column on one side; a wall is as high as the board.
pub open spec fn neighbour_height(g: Grid, col: int) -> int {
    if 0 <= col < BOARD_WIDTH {
        column_height(g, col)
    } else {
        BOARD_HEIGHT as int
    }
}

/// The depth of the well in a column: by how much the column is lower than
/// the lower of its two neighbours, if it is lower than both.
pub open spec fn well_depth(g: Grid, col: int) -> int {
    let left = neighbour_height(g, col - 1);
    let right = neighbour_height(g, col + 1);
    let here = column_height(g, col);
    if here < left && here < right {
        (if left <= right {
            left
        } else {
            right
        }) - here
    } else {
        0
    }
}

/// The well depths of the first `n` columns together.
pub open spec fn wells_of(g: Grid, n: int) -> int
    decreases n,
{
    if n <= 0 {
        0
    } else {
        wells_of(g, n - 1) + well_depth(g, n - 1)
    }
}

/// Whether a cell counts as filled for the transition counts: it holds a
/// block, or it lies below the floor or beside the board.
pub open spec fn filled_at(g: Grid, col: int, row: int) -> bool {
    if 0 <= col < BOARD_WIDTH && 0 <= row < BOARD_HEIGHT {
        !(g[row][col] is Empty)
    } else {
        true
    }
}

/// The changes between filled and empty in a column, counted from the floor
/// through the lowest `n` rows.
pub open spec fn column_flips(g: Grid, col: int, n: int) -> int
    decreases n,
{
    if n <= 0 {
        0
    } else {
        column_flips(g, col, n - 1) + if filled_at(g, col, n - 1) != filled_at(g, col, n - 2) {
            1int
        } else {
            0int
        }
    }
}

/// The column transitions of the first `n` columns together.
pub open spec fn column_transitions_of(g: Grid, n: int) -> int
    decreases n,
{
    if n <= 0 {
        0
    } else {
        column_transitions_of(g, n - 1) + column_flips(g, n - 1, BOARD_HEIGHT as int)
    }
}

/// The changes between filled and empty in a row, counted from the left wall
/// through the first `n` positions; position 10 is the right wall.
pub open spec fn row_flips(g: Grid, row: int, n: int) -> int
    decreases n,
{
    if n <= 0 {
        0
    } else {
        row_flips(g, row, n - 1) + if filled_at(g, n - 1, row) != filled_at(g, n - 2, row) {
            1int
        } else {
            0int
        }
    }
}

/// The row transitions of the lowest `n` rows together, both walls included.
pub open spec fn row_transitions_of(g: Grid, n: int) -> int
    decreases n,
{
    if n <= 0 {
        0
    } else {
        row_transitions_of(g, n - 1) + row_flips(g, n - 1, BOARD_WIDTH + 1)
    }
}

/// The rating of a board on which `lines_cleared` rows were just cleared, in
/// hundredths: each feature times its weight, plus the perfect-clear weight
/// if the board is empty and a row was cleared.
pub open spec fn board_score(g: Grid, lines_cleared: u32, w: EvalWeights) -> int {
    w.aggregate_height * height_sum(g, BOARD_WIDTH as int) + w.holes * holes_of(
        g,
        BOARD_WIDTH as int,
    ) + w.bumpiness * bumpiness_of(g, BOARD_WIDTH - 1) + w.lines_cleared * lines_cleared + w.wells
        * wells_of(g, BOARD_WIDTH as int) + w.column_transitions * column_transitions_of(
        g,
        BOARD_WIDTH as int,
    ) + w.row_transitions * row_transitions_of(g, BOARD_HEIGHT as int) + if grid_is_empty(g)
        && lines_cleared > 0 {
        w.perfect_clear as int
    } else {
        0int
    }
}

/// Rates a board after `lines_cleared` rows were cleared; higher is better.
/// The rating is in hundredths.
pub fn evaluate(board: &Board, lines_cleared: u32, weights: &EvalWeights) -> (score: i64)
    ensures
        score == board_score(board@, lines_cleared, *weights),
{
    let aggregate_height = board.aggregate_height() as i64;
    let holes = board.count_holes() as i64;
    let bumpiness = board.bumpiness() as i64;
    let wells = count_wells(board) as i64;
    let col_transitions = column_transitions(board) as i64;
    let row_transitions = row_transitions(board) as i64;
    let is_perfect_clear = board.is_empty() && lines_cleared > 0;

    let mut score: i64 = 0;
    score += term(weights.aggregate_height, aggregate_height);
    score += term(weights.holes, holes);
    score += term(weights.bumpiness, bumpiness);
    score += term(weights.lines_cleared, lines_cleared as i64);
    score += term(weights.wells, wells);
    score += term(weights.column_transitions, col_transitions);
    score += term(weights.row_transitions, row_transitions);
    if is_perfect_clear {
        score += weights.perfect_clear as i64;
    }
    score
}

/// A weight times the feature it belongs to.
fn term(weight: i16, feature: i64) -> (product: i64)
    requires
        0 <= feature <= u32::MAX,
    ensures
        product == weight * feature,
        -0x8000_0000_0000 <= product <= 0x8000_0000_0000,
{
    assert(-0x8000_0000_0000 <= weight * feature <= 0x8000_0000_0000) by (nonlinear_arith)
        requires
            -0x8000 <= weight <= 0x7fff,
            0 <= feature <= 0xffff_ffff,
    ;
    weight as i64 * feature
}

/// The sum of the well depths of all columns.
fn count_wells(board: &Board) -> (wells: usize)
    ensures
        wells == wells_of(board@, BOARD_WIDTH as int),
        wells <= BOARD_WIDTH * BOARD_HEIGHT,
{
    let mut wells: usize = 0;
    let mut col: usize = 0;
    while col < BOARD_WIDTH
        invariant
            col <= BOARD_WIDTH,
            wells == wells_of(board@, col as int),
            wells <= col * BOARD_HEIGHT,
        decreases BOARD_WIDTH - col,
    {
        let left_h = if col > 0 {
            board.column_height(col - 1)
        } else {
            BOARD_HEIGHT
        };
        let right_h = if col < BOARD_WIDTH - 1 {
            board.column_height(col + 1)
        } else {
            BOARD_HEIGHT
        };
        let h = board.column_height(col);
        if h < left_h && h < right_h {
            let lower = if left_h <= right_h {
                left_h
            } else {
                right_h
            };
            wells += lower - h;
        }
        col += 1;
    }
    wells
}

/// The number of changes between filled and empty going up each column; the
/// floor counts as filled.
fn column_transitions(board: &Board) -> (transitions: usize)
    ensures
        transitions == column_transitions_of(board@, BOARD_WIDTH as int),
        transitions <= BOARD_WIDTH * BOARD_HEIGHT,
{
    let mut transitions: usize = 0;
    let mut col: usize = 0;
    while col < BOARD_WIDTH
        invariant
            col <= BOARD_WIDTH,
            transitions == column_transitions_of(board@, col as int),
            transitions <= col * BOARD_HEIGHT,
        decreases BOARD_WIDTH - col,
    {
        let mut prev_filled = true;
        let mut in_column: usize = 0;
        let mut row: usize = 0;
        while row < BOARD_HEIGHT
            invariant
                row <= BOARD_HEIGHT,
                col < BOARD_WIDTH,
                prev_filled == filled_at(board@, col as int, row - 1),
                in_column == column_flips(board@, col as int, row as int),
                in_column <= row,
            decreases BOARD_HEIGHT - row,
        {
            let filled = board.grid[row][col].is_occupied();
            if filled != prev_filled {
                in_column += 1;
            }
            prev_filled = filled;
            row += 1;
        }
        transitions += in_column;
        col += 1;
    }
    transitions
}

/// The number of changes between filled and empty going along each row; both
/// walls count as filled.
fn row_transitions(board: &Board) -> (transitions: usize)
    ensures
        transitions == row_transitions_of(board@, BOARD_HEIGHT as int),
        transitions <= 440,
{
    let mut transitions: usize = 0;
    let mut row: usize = 0;
    while row < BOARD_HEIGHT
        invariant
            row <= BOARD_HEIGHT,
            transitions == row_transitions_of(board@, row as int),
            transitions <= row * 11,
        decreases BOARD_HEIGHT - row,
    {
        let mut prev_filled = true;
        let mut in_row: usize = 0;
        let mut col: usize = 0;
        while col < BOARD_WIDTH
            invariant
                col <= BOARD_WIDTH,
                row < BOARD_HEIGHT,
                prev_filled == filled_at(board@, col - 1, row as int),
                in_row == row_flips(board@, row as int, col as int),
                in_row <= col,
            decreases BOARD_WIDTH - col,
        {
            let filled = board.grid[row][col].is_occupied();
            if filled != prev_filled {
                in_row += 1;
            }
            prev_filled = filled;
            col += 1;
        }
        if !prev_filled {
            in_row += 1;
        }
        transitions += in_row;
        row += 1;
    }
    transitions
}

} // verus!
