//! Piece shapes, rotation states and the falling piece.

use vstd::prelude::*;

verus! {

/// The seven tetromino shapes.
#[derive(Debug, Clone, Copy, PartialEq, Eq, Hash, Structural)]
pub enum PieceType {
    I,
    O,
    T,
    S,
    Z,
    J,
    L,
}

impl PieceType {
    /// Every shape, once.
    pub const ALL: [PieceType; 7] = [
        PieceType::I,
        PieceType::O,
        PieceType::T,
        PieceType::S,
        PieceType::Z,
        PieceType::J,
        PieceType::L,
    ];
}

impl PieceType {
    /// The colour of the shape, as red, green and blue.
    pub open spec fn spec_color(self) -> (u8, u8, u8) {
        match self {
            PieceType::I => (101, 219, 200),
            PieceType::O => (242, 215, 76),
            PieceType::T => (193, 50, 208),
            PieceType::S => (122, 205, 68),
            PieceType::Z => (216, 58, 40),
            PieceType::J => (51, 88, 221),
            PieceType::L => (237, 169, 63),
        }
    }

    /// The colour of the shape, as red, green and blue: cyan, yellow,
    /// purple, green, red, blue and orange.
    #[verifier::when_used_as_spec(spec_color)]
    pub fn color(self) -> (rgb: (u8, u8, u8))
        ensures
            rgb == self.spec_color(),
    {
        match self {
            PieceType::I => (101, 219, 200),
            PieceType::O => (242, 215, 76),
            PieceType::T => (193, 50, 208),
            PieceType::S => (122, 205, 68),
            PieceType::Z => (216, 58, 40),
            PieceType::J => (51, 88, 221),
            PieceType::L => (237, 169, 63),
        }
    }

    /// A brighter tone of the colour of the shape, for the piece in play.
    pub fn bright_color(self) -> (rgb: (u8, u8, u8))
        ensures
            rgb == match self {
                PieceType::I => (140u8, 240u8, 225u8),
                PieceType::O => (255u8, 235u8, 120u8),
                PieceType::T => (225u8, 100u8, 240u8),
                PieceType::S => (160u8, 235u8, 110u8),
                PieceType::Z => (245u8, 100u8, 85u8),
                PieceType::J => (100u8, 135u8, 245u8),
                PieceType::L => (255u8, 200u8, 110u8),
            },
            rgb.0 >= self.spec_color().0 && rgb.1 >= self.spec_color().1 && rgb.2
                >= self.spec_color().2,
    {
        match self {
            PieceType::I => (140, 240, 225),
            PieceType::O => (255, 235, 120),
            PieceType::T => (225, 100, 240),
            PieceType::S => (160, 235, 110),
            PieceType::Z => (245, 100, 85),
            PieceType::J => (100, 135, 245),
            PieceType::L => (255, 200, 110),
        }
    }

    /// A darker tone of the colour of the shape, about half as bright.
    pub fn dim_color(self) -> (rgb: (u8, u8, u8))
        ensures
            rgb == match self {
                PieceType::I => (50u8, 110u8, 100u8),
                PieceType::O => (121u8, 107u8, 38u8),
                PieceType::T => (96u8, 25u8, 104u8),
                PieceType::S => (61u8, 102u8, 34u8),
                PieceType::Z => (108u8, 29u8, 20u8),
                PieceType::J => (25u8, 44u8, 110u8),
                PieceType::L => (118u8, 84u8, 31u8),
            },
            rgb.0 <= self.spec_color().0 && rgb.1 <= self.spec_color().1 && rgb.2
                <= self.spec_color().2,
    {
        match self {
            PieceType::I => (50, 110, 100),
            PieceType::O => (121, 107, 38),
            PieceType::T => (96, 25, 104),
            PieceType::S => (61, 102, 34),
            PieceType::Z => (108, 29, 20),
            PieceType::J => (25, 44, 110),
            PieceType::L => (118, 84, 31),
        }
    }
}

/// The seven shapes in their fixed order, as a sequence.
pub open spec fn all_piece_types() -> Seq<PieceType> {
    seq![
        PieceType::I,
        PieceType::O,
        PieceType::T,
        PieceType::S,
        PieceType::Z,
        PieceType::J,
        PieceType::L,
    ]
}

/// The four orientations of a piece: spawn, clockwise, half turn, counterclockwise.
#[derive(Debug, Clone, Copy, PartialEq, Eq, Hash, Structural)]
pub enum RotationState {
    R0,
    R1,
    R2,
    R3,
}

impl RotationState {
    /// Position of the state on the clockwise cycle.
    pub open spec fn spec_index(self) -> int {
        match self {
            RotationState::R0 => 0,
            RotationState::R1 => 1,
            RotationState::R2 => 2,
            RotationState::R3 => 3,
        }
    }

    /// The state `steps` clockwise quarter turns after this one.
    pub open spec fn turned(self, steps: int) -> RotationState {
        let k = (self.spec_index() + steps) % 4;
        if k == 0 {
            RotationState::R0
        } else if k == 1 {
            RotationState::R1
        } else if k == 2 {
            RotationState::R2
        } else {
            RotationState::R3
        }
    }

    pub open spec fn spec_cw(self) -> RotationState {
        self.turned(1)
    }

    pub open spec fn spec_ccw(self) -> RotationState {
        self.turned(3)
    }

    pub open spec fn spec_flip(self) -> RotationState {
        self.turned(2)
    }

    /// One quarter turn clockwise.
    #[verifier::when_used_as_spec(spec_cw)]
    pub fn cw(self) -> (r: RotationState)
        ensures
            r == self.turned(1),
    {
        match self {
            RotationState::R0 => RotationState::R1,
            RotationState::R1 => RotationState::R2,
            RotationState::R2 => RotationState::R3,
            RotationState::R3 => RotationState::R0,
        }
    }

    /// One quarter turn counterclockwise.
    #[verifier::when_used_as_spec(spec_ccw)]
    pub fn ccw(self) -> (r: RotationState)
        ensures
            r == self.turned(3),
    {
        match self {
            RotationState::R0 => RotationState::R3,
            RotationState::R1 => RotationState::R0,
            RotationState::R2 => RotationState::R1,
            RotationState::R3 => RotationState::R2,
        }
    }

    /// A half turn.
    #[verifier::when_used_as_spec(spec_flip)]
    pub fn flip(self) -> (r: RotationState)
        ensures
            r == self.turned(2),
    {
        match self {
            RotationState::R0 => RotationState::R2,
            RotationState::R1 => RotationState::R3,
            RotationState::R2 => RotationState::R0,
            RotationState::R3 => RotationState::R1,
        }
    }

    /// Position of the state on the clockwise cycle, from 0 for the spawn state.
    #[verifier::when_used_as_spec(spec_index_usize)]
    pub fn index(self) -> (i: usize)
        ensures
            i == self.spec_index(),
    {
        match self {
            RotationState::R0 => 0,
            RotationState::R1 => 1,
            RotationState::R2 => 2,
            RotationState::R3 => 3,
        }
    }

    pub open spec fn spec_index_usize(self) -> usize {
        self.spec_index() as usize
    }

    /// Four quarter turns in either direction, and two half turns, give the
    /// state back; a clockwise turn undoes a counterclockwise one, and a
    /// clockwise turn is a counterclockwise turn followed by a half turn.
    pub proof fn lemma_rotation_round_trip(self)
        ensures
            self.cw().cw().cw().cw() == self,
            self.ccw().ccw().ccw().ccw() == self,
            self.flip().flip() == self,
            self.cw().ccw() == self,
            self.ccw().cw() == self,
            self.cw() == self.ccw().flip(),
    {
    }
}

/// Cell offsets of a shape in an orientation, as (column, row) from the
/// piece's origin. Rows grow upward and columns grow to the right.
pub open spec fn shape(piece_type: PieceType, rotation: RotationState) -> Seq<(int, int)> {
    match piece_type {
        PieceType::I => match rotation {
            RotationState::R0 => seq![(0, 0), (1, 0), (2, 0), (3, 0)],
            RotationState::R1 => seq![(2, 1), (2, 0), (2, -1), (2, -2)],
            RotationState::R2 => seq![(0, -1), (1, -1), (2, -1), (3, -1)],
            RotationState::R3 => seq![(1, 1), (1, 0), (1, -1), (1, -2)],
        },
        PieceType::O => seq![(0, 0), (1, 0), (0, 1), (1, 1)],
        PieceType::T => match rotation {
            RotationState::R0 => seq![(0, 0), (1, 0), (2, 0), (1, 1)],
            RotationState::R1 => seq![(1, 1), (1, 0), (1, -1), (2, 0)],
            RotationState::R2 => seq![(0, 0), (1, 0), (2, 0), (1, -1)],
            RotationState::R3 => seq![(1, 1), (1, 0), (1, -1), (0, 0)],
        },
        PieceType::S => match rotation {
            RotationState::R0 => seq![(0, 0), (1, 0), (1, 1), (2, 1)],
            RotationState::R1 => seq![(1, 1), (1, 0), (2, 0), (2, -1)],
            RotationState::R2 => seq![(0, -1), (1, -1), (1, 0), (2, 0)],
            RotationState::R3 => seq![(0, 1), (0, 0), (1, 0), (1, -1)],
        },
        PieceType::Z => match rotation {
            RotationState::R0 => seq![(0, 1), (1, 1), (1, 0), (2, 0)],
            RotationState::R1 => seq![(2, 1), (2, 0), (1, 0), (1, -1)],
            RotationState::R2 => seq![(0, 0), (1, 0), (1, -1), (2, -1)],
            RotationState::R3 => seq![(1, 1), (1, 0), (0, 0), (0, -1)],
        },
        PieceType::J => match rotation {
            RotationState::R0 => seq![(0, 1), (0, 0), (1, 0), (2, 0)],
            RotationState::R1 => seq![(1, 1), (2, 1), (1, 0), (1, -1)],
            RotationState::R2 => seq![(0, 0), (1, 0), (2, 0), (2, -1)],
            RotationState::R3 => seq![(1, 1), (1, 0), (0, -1), (1, -1)],
        },
        PieceType::L => match rotation {
            RotationState::R0 => seq![(0, 0), (1, 0), (2, 0), (2, 1)],
            RotationState::R1 => seq![(1, 1), (1, 0), (1, -1), (2, -1)],
            RotationState::R2 => seq![(0, -1), (0, 0), (1, 0), (2, 0)],
            RotationState::R3 => seq![(0, 1), (1, 1), (1, 0), (1, -1)],
        },
    }
}

/// The cells that a shape covers when its origin stands at (`x`, `y`).
pub open spec fn cells_of(
    piece_type: PieceType,
    x: int,
    y: int,
    rotation: RotationState,
) -> Seq<(int, int)> {
    Seq::new(
        4,
        |i: int| (x + shape(piece_type, rotation)[i].0, y + shape(piece_type, rotation)[i].1),
    )
}

/// Four cells of machine integers, read as mathematical coordinates.
pub open spec fn cells_view(cells: [(i32, i32); 4]) -> Seq<(int, int)> {
    Seq::new(4, |i: int| (cells[i].0 as int, cells[i].1 as int))
}

/// Whether every coordinate of `cells` is an `i32`.
pub open spec fn cells_in_i32(cells: Seq<(int, int)>) -> bool {
    forall|i: int|
        0 <= i < cells.len() ==> i32::MIN <= (#[trigger] cells[i]).0 <= i32::MAX && i32::MIN
            <= cells[i].1 <= i32::MAX
}

/// Every shape has four cells, no column offset outside 0..=3 and no row
/// offset outside -2..=1.
pub proof fn lemma_shape_bounds(piece_type: PieceType, rotation: RotationState)
    ensures
        shape(piece_type, rotation).len() == 4,
        forall|i: int|
            0 <= i < 4 ==> 0 <= (#[trigger] shape(piece_type, rotation)[i]).0 <= 3 && -2 <= shape(
                piece_type,
                rotation,
            )[i].1 <= 1,
{
}

/// The four cells of a shape are pairwise distinct.
pub proof fn lemma_shape_distinct(piece_type: PieceType, rotation: RotationState)
    ensures
        forall|i: int, j: int|
            0 <= i < j < 4 ==> #[trigger] shape(piece_type, rotation)[i] != #[trigger] shape(
                piece_type,
                rotation,
            )[j],
{
}

/// The O shape covers the same cells in every orientation.
pub proof fn lemma_o_shape_ignores_rotation(a: RotationState, b: RotationState)
    ensures
        shape(PieceType::O, a) == shape(PieceType::O, b),
{
}

/// The cell offsets of a shape in an orientation, relative to the origin.
pub fn get_cells(piece_type: PieceType, rotation: RotationState) -> (cells: [(i32, i32); 4])
    ensures
        cells_view(cells) == shape(piece_type, rotation),
{
    let cells: [(i32, i32); 4] = match piece_type {
        PieceType::I => match rotation {
            RotationState::R0 => [(0, 0), (1, 0), (2, 0), (3, 0)],
            RotationState::R1 => [(2, 1), (2, 0), (2, -1), (2, -2)],
            RotationState::R2 => [(0, -1), (1, -1), (2, -1), (3, -1)],
            RotationState::R3 => [(1, 1), (1, 0), (1, -1), (1, -2)],
        },
        PieceType::O => [(0, 0), (1, 0), (0, 1), (1, 1)],
        PieceType::T => match rotation {
            RotationState::R0 => [(0, 0), (1, 0), (2, 0), (1, 1)],
            RotationState::R1 => [(1, 1), (1, 0), (1, -1), (2, 0)],
            RotationState::R2 => [(0, 0), (1, 0), (2, 0), (1, -1)],
            RotationState::R3 => [(1, 1), (1, 0), (1, -1), (0, 0)],
        },
        PieceType::S => match rotation {
            RotationState::R0 => [(0, 0), (1, 0), (1, 1), (2, 1)],
            RotationState::R1 => [(1, 1), (1, 0), (2, 0), (2, -1)],
            RotationState::R2 => [(0, -1), (1, -1), (1, 0), (2, 0)],
            RotationState::R3 => [(0, 1), (0, 0), (1, 0), (1, -1)],
        },
        PieceType::Z => match rotation {
            RotationState::R0 => [(0, 1), (1, 1), (1, 0), (2, 0)],
            RotationState::R1 => [(2, 1), (2, 0), (1, 0), (1, -1)],
            RotationState::R2 => [(0, 0), (1, 0), (1, -1), (2, -1)],
            RotationState::R3 => [(1, 1), (1, 0), (0, 0), (0, -1)],
        },
        PieceType::J => match rotation {
            RotationState::R0 => [(0, 1), (0, 0), (1, 0), (2, 0)],
            RotationState::R1 => [(1, 1), (2, 1), (1, 0), (1, -1)],
            RotationState::R2 => [(0, 0), (1, 0), (2, 0), (2, -1)],
            RotationState::R3 => [(1, 1), (1, 0), (0, -1), (1, -1)],
        },
        PieceType::L => match rotation {
            RotationState::R0 => [(0, 0), (1, 0), (2, 0), (2, 1)],
            RotationState::R1 => [(1, 1), (1, 0), (1, -1), (2, -1)],
            RotationState::R2 => [(0, -1), (0, 0), (1, 0), (2, 0)],
            RotationState::R3 => [(0, 1), (1, 1), (1, 0), (1, -1)],
        },
    };
    assert(cells_view(cells) =~= shape(piece_type, rotation));
    cells
}

/// Column at which a new piece appears.
pub const SPAWN_X: i32 = 3;

/// Row at which a new piece appears, just above the visible rows.
pub const SPAWN_Y: i32 = 20;

/// A piece in play: a shape, an orientation and the position of its origin.
#[derive(Debug, Clone, Copy, PartialEq, Eq, Structural)]
pub struct Piece {
    pub piece_type: PieceType,
    pub rotation: RotationState,
    /// Column of the origin.
    pub x: i32,
    /// Row of the origin; row 0 is the floor.
    pub y: i32,
}

impl Piece {
    /// The cells that the piece covers where it stands.
    pub open spec fn spec_cells(&self) -> Seq<(int, int)> {
        cells_of(self.piece_type, self.x as int, self.y as int, self.rotation)
    }

    /// A piece of the given shape at the spawn position, in the spawn orientation.
    pub fn new(piece_type: PieceType) -> (piece: Piece)
        ensures
            piece == (Piece { piece_type, rotation: RotationState::R0, x: SPAWN_X, y: SPAWN_Y }),
    {
        Piece { piece_type, rotation: RotationState::R0, x: SPAWN_X, y: SPAWN_Y }
    }

    /// The four cells that the piece covers, as (column, row).
    pub fn cells(&self) -> (cells: [(i32, i32); 4])
        requires
            cells_in_i32(self.spec_cells()),
        ensures
            cells_view(cells) == self.spec_cells(),
    {
        self.cells_at(self.x, self.y, self.rotation)
    }

    /// The four cells that the piece would cover at another position and orientation.
    pub fn cells_at(&self, x: i32, y: i32, rotation: RotationState) -> (cells: [(i32, i32); 4])
        requires
            cells_in_i32(cells_of(self.piece_type, x as int, y as int, rotation)),
        ensures
            cells_view(cells) == cells_of(self.piece_type, x as int, y as int, rotation),
    {
        let offsets = get_cells(self.piece_type, rotation);
        let ghost target = cells_of(self.piece_type, x as int, y as int, rotation);
        proof {
            assert forall|i: int| 0 <= i < 4 implies (offsets[i].0 as int, offsets[i].1 as int)
                == shape(self.piece_type, rotation)[i] by {
                assert(cells_view(offsets)[i] == shape(self.piece_type, rotation)[i]);
            }
            assert(target[0].0 == x + offsets[0].0 && target[0].1 == y + offsets[0].1);
            assert(target[1].0 == x + offsets[1].0 && target[1].1 == y + offsets[1].1);
            assert(target[2].0 == x + offsets[2].0 && target[2].1 == y + offsets[2].1);
            assert(target[3].0 == x + offsets[3].0 && target[3].1 == y + offsets[3].1);
        }
        let cells = [
            (x + offsets[0].0, y + offsets[0].1),
            (x + offsets[1].0, y + offsets[1].1),
            (x + offsets[2].0, y + offsets[2].1),
            (x + offsets[3].0, y + offsets[3].1),
        ];
        assert(cells_view(cells) =~= target);
        cells
    }
}

} // verus!
