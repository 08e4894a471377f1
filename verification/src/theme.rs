//! Colours that depend on how the game stands, and what each cell of the
//! board shows. Colours are red, green and blue.

use vstd::prelude::*;
use crate::game::board::{grid_get, Board, Cell, Grid};
use crate::game::clear::ClearType;
use crate::game::ghost::ghost_y;
use crate::game::movement::landing_y;
use crate::game::piece::{cells_of, get_cells, shape, Piece, PieceType, RotationState};

verus! {

/// The colour of dim text.
pub const TEXT_DIM: (u8, u8, u8) = (100, 105, 120);

/// The colour of plain text.
pub const TEXT_COLOR: (u8, u8, u8) = (200, 205, 215);

/// The rows from which on blocks are tinted while the stack is in danger.
pub const DANGER_ROW: i32 = 16;

/// The colour in which the level is shown: from green through yellow,
/// orange, red and purple to pink as the level rises.
pub fn level_color(level: u32) -> (rgb: (u8, u8, u8))
    ensures
        rgb == if level <= 2 {
            (80u8, 200u8, 120u8)
        } else if level <= 5 {
            (200u8, 200u8, 60u8)
        } else if level <= 8 {
            (230u8, 150u8, 50u8)
        } else if level <= 12 {
            (220u8, 60u8, 60u8)
        } else if level <= 16 {
            (180u8, 60u8, 220u8)
        } else if level <= 20 {
            (220u8, 100u8, 255u8)
        } else {
            (255u8, 180u8, 255u8)
        },
{
    if level <= 2 {
        (80, 200, 120)
    } else if level <= 5 {
        (200, 200, 60)
    } else if level <= 8 {
        (230, 150, 50)
    } else if level <= 12 {
        (220, 60, 60)
    } else if level <= 16 {
        (180, 60, 220)
    } else if level <= 20 {
        (220, 100, 255)
    } else {
        (255, 180, 255)
    }
}

/// The colour in which the name of a clear is shown.
pub fn clear_type_color(clear_type: &ClearType) -> (rgb: (u8, u8, u8))
    ensures
        rgb == match *clear_type {
            ClearType::NoClear => (100u8, 105u8, 120u8),
            ClearType::Single => (180u8, 185u8, 200u8),
            ClearType::Double => (120u8, 200u8, 255u8),
            ClearType::Triple => (180u8, 100u8, 255u8),
            ClearType::Quad => (255u8, 215u8, 60u8),
            ClearType::TSpin | ClearType::MiniTSpin => (200u8, 80u8, 255u8),
            ClearType::TSpinSingle | ClearType::MiniTSpinSingle => (220u8, 100u8, 255u8),
            ClearType::TSpinDouble | ClearType::MiniTSpinDouble => (255u8, 140u8, 255u8),
            ClearType::TSpinTriple => (255u8, 180u8, 255u8),
            ClearType::AllSpin(_) => (100u8, 255u8, 200u8),
        },
{
    match clear_type {
        ClearType::NoClear => TEXT_DIM,
        ClearType::Single => (180, 185, 200),
        ClearType::Double => (120, 200, 255),
        ClearType::Triple => (180, 100, 255),
        ClearType::Quad => (255, 215, 60),
        ClearType::TSpin | ClearType::MiniTSpin => (200, 80, 255),
        ClearType::TSpinSingle | ClearType::MiniTSpinSingle => (220, 100, 255),
        ClearType::TSpinDouble | ClearType::MiniTSpinDouble => (255, 140, 255),
        ClearType::TSpinTriple => (255, 180, 255),
        ClearType::AllSpin(_) => (100, 255, 200),
    }
}

/// The colour in which a combo is shown: the longer, the hotter.
pub fn combo_color(combo: u32) -> (rgb: (u8, u8, u8))
    ensures
        rgb == if combo <= 2 {
            (200u8, 205u8, 215u8)
        } else if combo <= 5 {
            (255u8, 255u8, 100u8)
        } else if combo <= 9 {
            (255u8, 180u8, 50u8)
        } else if combo <= 14 {
            (255u8, 80u8, 80u8)
        } else {
            (255u8, 100u8, 255u8)
        },
{
    if combo <= 2 {
        TEXT_COLOR
    } else if combo <= 5 {
        (255, 255, 100)
    } else if combo <= 9 {
        (255, 180, 50)
    } else if combo <= 14 {
        (255, 80, 80)
    } else {
        (255, 100, 255)
    }
}

/// The colour in which a back-to-back chain is shown.
pub fn btb_color(btb: u32) -> (rgb: (u8, u8, u8))
    ensures
        rgb == if btb <= 2 {
            (255u8, 200u8, 60u8)
        } else if btb <= 5 {
            (255u8, 160u8, 40u8)
        } else {
            (255u8, 120u8, 200u8)
        },
{
    if btb <= 2 {
        (255, 200, 60)
    } else if btb <= 5 {
        (255, 160, 40)
    } else {
        (255, 120, 200)
    }
}

/// The least column offset among the cells of a shape in its spawn orientation.
pub open spec fn shape_min_x(piece_type: PieceType) -> int {
    let s = shape(piece_type, RotationState::R0);
    min2(min2(s[0].0, s[1].0), min2(s[2].0, s[3].0))
}

/// The greatest row offset among the cells of a shape in its spawn orientation.
pub open spec fn shape_max_y(piece_type: PieceType) -> int {
    let s = shape(piece_type, RotationState::R0);
    -min2(min2(-s[0].1, -s[1].1), min2(-s[2].1, -s[3].1))
}

/// The lesser of two numbers.
pub open spec fn min2(a: int, b: int) -> int {
    if a <= b {
        a
    } else {
        b
    }
}

/// Where cell `i` of a shape goes in a small picture of the shape, as
/// columns and rows of the terminal from the corner of the picture: two
/// columns per cell, the top row first, and every shape but the I moved one
/// column to the right.
pub open spec fn mini_cell(piece_type: PieceType, i: int) -> (int, int) {
    let s = shape(piece_type, RotationState::R0);
    (
        (if piece_type == PieceType::I {
            0int
        } else {
            1int
        }) + (s[i].0 - shape_min_x(piece_type)) * 2,
        shape_max_y(piece_type) - s[i].1,
    )
}

/// Where the four cells of a shape go in a small picture of the shape.
pub fn mini_piece_cells(piece_type: PieceType) -> (cells: [(u16, u16); 4])
    ensures
        forall|i: int|
            0 <= i < 4 ==> (#[trigger] cells[i]).0 == mini_cell(piece_type, i).0 && cells[i].1
                == mini_cell(piece_type, i).1,
        forall|i: int| 0 <= i < 4 ==> (#[trigger] cells[i]).0 <= 7 && cells[i].1 <= 1,
{
    let offsets = get_cells(piece_type, RotationState::R0);
    proof {
        assert forall|i: int| 0 <= i < 4 implies (offsets[i].0 as int, offsets[i].1 as int)
            == shape(piece_type, RotationState::R0)[i] by {
            assert(crate::game::piece::cells_view(offsets)[i] == shape(
                piece_type,
                RotationState::R0,
            )[i]);
        }
    }
    let mut min_x: i32 = offsets[0].0;
    let mut max_y: i32 = offsets[0].1;
    let mut i: usize = 1;
    while i < 4
        invariant
            1 <= i <= 4,
            forall|j: int| 0 <= j < i ==> min_x <= offsets[j].0 && offsets[j].1 <= max_y,
            exists|j: int| 0 <= j < i && min_x == offsets[j].0,
            exists|j: int| 0 <= j < i && max_y == offsets[j].1,
        decreases 4 - i,
    {
        if offsets[i].0 < min_x {
            min_x = offsets[i].0;
        }
        if offsets[i].1 > max_y {
            max_y = offsets[i].1;
        }
        i += 1;
    }
    let offset_x: i32 = match piece_type {
        PieceType::I => 0,
        _ => 1,
    };
    [
        ((offset_x + (offsets[0].0 - min_x) * 2) as u16, (max_y - offsets[0].1) as u16),
        ((offset_x + (offsets[1].0 - min_x) * 2) as u16, (max_y - offsets[1].1) as u16),
        ((offset_x + (offsets[2].0 - min_x) * 2) as u16, (max_y - offsets[2].1) as u16),
        ((offset_x + (offsets[3].0 - min_x) * 2) as u16, (max_y - offsets[3].1) as u16),
    ]
}

/// How many cells of a garbage bar of the given height are lit for the
/// pending lines: one per line, as far as the bar reaches.
pub fn garbage_bar_fill(pending: u32, bar_height: u16) -> (filled: u16)
    ensures
        filled == if pending <= bar_height {
            pending as u16
        } else {
            bar_height
        },
{
    if pending <= bar_height as u32 {
        pending as u16
    } else {
        bar_height
    }
}

/// What a cell of the board shows.
#[derive(Debug, Clone, Copy, PartialEq, Eq, Structural)]
pub enum CellLook {
    /// The flash of a row that is being cleared.
    Flash,
    /// A cell of the piece in play.
    Active(PieceType),
    /// A cell of the place where the piece in play would come to rest.
    Shadow,
    /// An empty cell with the dot of the grid.
    Dot,
    /// An empty cell.
    Blank,
    /// A locked block; with the flag set, it lies in the rows that are
    /// tinted while the stack is in danger.
    Block { piece_type: PieceType, near_top: bool },
    /// A garbage block, lighter in even rows and darker in odd ones.
    Garbage { dark: bool },
}

/// Whether the piece covers the cell where it stands.
pub open spec fn piece_covers(piece: Piece, col: int, row: int) -> bool {
    exists|i: int|
        0 <= i < 4 && #[trigger] cells_of(
            piece.piece_type,
            piece.x as int,
            piece.y as int,
            piece.rotation,
        )[i] == (col, row)
}

/// Whether the piece would cover the cell where it comes to rest.
pub open spec fn ghost_covers(g: Grid, piece: Piece, col: int, row: int) -> bool {
    let y = landing_y(g, piece.piece_type, piece.x as int, piece.y as int, piece.rotation);
    y != piece.y && exists|i: int|
        0 <= i < 4 && #[trigger] cells_of(piece.piece_type, piece.x as int, y, piece.rotation)[i]
            == (col, row)
}

/// What the cell at (`col`, `row`) shows: the flash of a clearing row comes
/// first, then the piece in play, then its ghost, then what the board holds.
pub open spec fn spec_cell_look(
    g: Grid,
    piece: Option<Piece>,
    flash_rows: Seq<usize>,
    show_grid: bool,
    col: int,
    row: int,
) -> CellLook {
    if row >= 0 && flash_rows.contains(row as usize) {
        CellLook::Flash
    } else if piece is Some && piece_covers(piece->0, col, row) {
        CellLook::Active(piece->0.piece_type)
    } else if piece is Some && ghost_covers(g, piece->0, col, row) {
        CellLook::Shadow
    } else {
        match grid_get(g, col, row) {
            Cell::Empty => if show_grid {
                CellLook::Dot
            } else {
                CellLook::Blank
            },
            Cell::Filled(piece_type) => CellLook::Block { piece_type, near_top: row >= DANGER_ROW },
            Cell::Garbage => CellLook::Garbage { dark: row % 2 != 0 },
        }
    }
}

/// Whether a shape at (`x`, `y`) covers the cell (`col`, `row`).
fn covers_cell(piece: &Piece, y: i32, col: i32, row: i32) -> (covers: bool)
    ensures
        covers == exists|i: int|
            0 <= i < 4 && #[trigger] cells_of(
                piece.piece_type,
                piece.x as int,
                y as int,
                piece.rotation,
            )[i] == (col as int, row as int),
{
    let offsets = get_cells(piece.piece_type, piece.rotation);
    let ghost cells = cells_of(piece.piece_type, piece.x as int, y as int, piece.rotation);
    let mut i: usize = 0;
    while i < 4
        invariant
            i <= 4,
            crate::game::piece::cells_view(offsets) == crate::game::piece::shape(
                piece.piece_type,
                piece.rotation,
            ),
            cells == cells_of(piece.piece_type, piece.x as int, y as int, piece.rotation),
            forall|j: int| 0 <= j < i ==> #[trigger] cells[j] != (col as int, row as int),
        decreases 4 - i,
    {
        assert(crate::game::piece::cells_view(offsets)[i as int] == crate::game::piece::shape(
            piece.piece_type,
            piece.rotation,
        )[i as int]);
        let cx: i64 = piece.x as i64 + offsets[i].0 as i64;
        let cy: i64 = y as i64 + offsets[i].1 as i64;
        assert(cells[i as int] == (cx as int, cy as int));
        if cx == col as i64 && cy == row as i64 {
            return true;
        }
        i += 1;
    }
    false
}

/// Whether `rows` lists `row`.
fn lists_row(rows: &[usize], row: usize) -> (found: bool)
    ensures
        found == rows@.contains(row),
{
    let mut i: usize = 0;
    while i < rows.len()
        invariant
            i <= rows@.len(),
            forall|k: int| 0 <= k < i ==> rows@[k] != row,
        decreases rows@.len() - i,
    {
        if rows[i] == row {
            return true;
        }
        i += 1;
    }
    false
}

/// What the cell at (`col`, `row`) shows, given the piece in play, the rows
/// that flash because they are being cleared, and whether the grid is shown.
pub fn cell_look(
    board: &Board,
    piece: Option<&Piece>,
    flash_rows: &[usize],
    show_grid: bool,
    col: i32,
    row: i32,
) -> (look: CellLook)
    ensures
        look == spec_cell_look(
            board@,
            match piece {
                Some(p) => Some(*p),
                None => None,
            },
            flash_rows@,
            show_grid,
            col as int,
            row as int,
        ),
{
    if row >= 0 && lists_row(flash_rows, row as usize) {
        return CellLook::Flash;
    }
    if let Some(piece) = piece {
        if covers_cell(piece, piece.y, col, row) {
            return CellLook::Active(piece.piece_type);
        }
        let rest_y = ghost_y(board, piece);
        if rest_y != piece.y && covers_cell(piece, rest_y, col, row) {
            return CellLook::Shadow;
        }
    }
    match board.get(col, row) {
        Cell::Empty => {
            if show_grid {
                CellLook::Dot
            } else {
                CellLook::Blank
            }
        },
        Cell::Filled(piece_type) => CellLook::Block { piece_type, near_top: row >= DANGER_ROW },
        Cell::Garbage => CellLook::Garbage { dark: row % 2 != 0 },
    }
}

} // verus!
