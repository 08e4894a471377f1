//! Where the piece in play would come to rest.

use vstd::prelude::*;
use super::board::Board;
use super::movement::landing_y;
use super::piece::{cells_in_i32, cells_of, cells_view, Piece};

verus! {

/// The row on which `piece` comes to rest when it falls straight down.
pub fn ghost_y(board: &Board, piece: &Piece) -> (y: i32)
    ensures
        y == landing_y(board@, piece.piece_type, piece.x as int, piece.y as int, piece.rotation),
{
    let mut y = piece.y;
    while y >= 1 && board.fits_at(piece, piece.x, y - 1, piece.rotation)
        invariant
            y <= piece.y,
            landing_y(board@, piece.piece_type, piece.x as int, y as int, piece.rotation)
                == landing_y(
                board@,
                piece.piece_type,
                piece.x as int,
                piece.y as int,
                piece.rotation,
            ),
        decreases y,
    {
        y -= 1;
    }
    y
}

/// The cells that `piece` covers where it comes to rest.
pub fn ghost_cells(board: &Board, piece: &Piece) -> (cells: [(i32, i32); 4])
    requires
        cells_in_i32(
            cells_of(
                piece.piece_type,
                piece.x as int,
                landing_y(
                    board@,
                    piece.piece_type,
                    piece.x as int,
                    piece.y as int,
                    piece.rotation,
                ),
                piece.rotation,
            ),
        ),
    ensures
        cells_view(cells) == cells_of(
            piece.piece_type,
            piece.x as int,
            landing_y(board@, piece.piece_type, piece.x as int, piece.y as int, piece.rotation),
            piece.rotation,
        ),
{
    let gy = ghost_y(board, piece);
    piece.cells_at(piece.x, gy, piece.rotation)
}

} // verus!
