//! The playfield: a grid of cells with collision tests, locking, line
//! clearing, garbage insertion and the measures that placement search uses.

use vstd::prelude::*;
use super::piece::{cells_of, cells_view, get_cells, shape, Piece, PieceType, RotationState};
use super::srs;

verus! {

/// Columns of the playfield.
pub const BOARD_WIDTH: usize = 10;

/// Rows of the playfield: the visible rows and a buffer of the same size above them.
pub const BOARD_HEIGHT: usize = 40;

/// Rows that are shown; row 0 is the floor.
pub const VISIBLE_HEIGHT: usize = 20;

/// What one cell of the playfield holds.
#[derive(Debug, Clone, Copy, PartialEq, Eq, Structural)]
pub enum Cell {
    Empty,
    /// Part of a locked piece of the given shape.
    Filled(PieceType),
    Garbage,
}

impl Cell {
    pub open spec fn spec_is_empty(self) -> bool {
        self is Empty
    }

    pub open spec fn spec_is_occupied(self) -> bool {
        !(self is Empty)
    }

    /// Whether the cell holds nothing.
    #[verifier::when_used_as_spec(spec_is_empty)]
    pub fn is_empty(self) -> (b: bool)
        ensures
            b == (self is Empty),
    {
        match self {
            Cell::Empty => true,
            _ => false,
        }
    }

    /// Whether the cell holds a block of any kind.
    #[verifier::when_used_as_spec(spec_is_occupied)]
    pub fn is_occupied(self) -> (b: bool)
        ensures
            b == !(self is Empty),
    {
        !self.is_empty()
    }
}

/// The mathematical playfield: rows from the floor up, each a sequence of cells.
pub type Grid = Seq<Seq<Cell>>;

/// A grid of the playfield's size.
pub open spec fn grid_wf(g: Grid) -> bool {
    &&& g.len() == BOARD_HEIGHT
    &&& forall|r: int| 0 <= r < BOARD_HEIGHT ==> (#[trigger] g[r]).len() == BOARD_WIDTH
}

/// Whether (`col`, `row`) lies on the playfield.
pub open spec fn in_bounds(col: int, row: int) -> bool {
    0 <= col < BOARD_WIDTH && 0 <= row < BOARD_HEIGHT
}

/// A row of empty cells.
pub open spec fn empty_row() -> Seq<Cell> {
    Seq::new(BOARD_WIDTH as nat, |c: int| Cell::Empty)
}

/// The playfield with nothing on it.
pub open spec fn empty_grid() -> Grid {
    Seq::new(BOARD_HEIGHT as nat, |r: int| empty_row())
}

/// The cell at (`col`, `row`); anything off the playfield reads as solid.
pub open spec fn grid_get(g: Grid, col: int, row: int) -> Cell {
    if in_bounds(col, row) {
        g[row][col]
    } else {
        Cell::Filled(PieceType::I)
    }
}

/// Whether (`col`, `row`) is on the playfield and empty.
pub open spec fn cell_free(g: Grid, col: int, row: int) -> bool {
    in_bounds(col, row) && g[row][col] is Empty
}

/// The grid with one cell replaced; a position off the playfield changes nothing.
pub open spec fn grid_set(g: Grid, col: int, row: int, cell: Cell) -> Grid {
    if in_bounds(col, row) {
        g.update(row, g[row].update(col, cell))
    } else {
        g
    }
}

/// Whether all of `cells` are on the playfield and empty.
pub open spec fn cells_free(g: Grid, cells: Seq<(int, int)>) -> bool {
    forall|i: int| 0 <= i < cells.len() ==> cell_free(g, (#[trigger] cells[i]).0, cells[i].1)
}

/// Whether a shape fits with its origin at (`x`, `y`) in the given orientation.
pub open spec fn grid_fits(
    g: Grid,
    piece_type: PieceType,
    x: int,
    y: int,
    rotation: RotationState,
) -> bool {
    cells_free(g, cells_of(piece_type, x, y, rotation))
}

/// Whether a piece fits where it stands.
pub open spec fn piece_fits_grid(g: Grid, piece: Piece) -> bool {
    grid_fits(g, piece.piece_type, piece.x as int, piece.y as int, piece.rotation)
}

/// Whether (`col`, `row`) is one of four cells.
pub open spec fn covers(cells: Seq<(int, int)>, col: int, row: int) -> bool {
    cells[0] == (col, row) || cells[1] == (col, row) || cells[2] == (col, row) || cells[3] == (
        col,
        row,
    )
}

/// The grid after four cells are filled with blocks of a shape. Cells off the
/// playfield are ignored.
pub open spec fn grid_lock(g: Grid, cells: Seq<(int, int)>, piece_type: PieceType) -> Grid {
    Seq::new(
        BOARD_HEIGHT as nat,
        |r: int|
            Seq::new(
                BOARD_WIDTH as nat,
                |c: int|
                    if covers(cells, c, r) {
                        Cell::Filled(piece_type)
                    } else {
                        g[r][c]
                    },
            ),
    )
}

/// The first wall-kick candidate, from position `start` of `kicks` on, at
/// which the turned piece fits.
pub open spec fn first_fitting_kick(
    g: Grid,
    piece: Piece,
    target: RotationState,
    kicks: Seq<(i32, i32)>,
    start: int,
) -> Option<(i32, i32)>
    decreases kicks.len() - start,
{
    if start < 0 || start >= kicks.len() {
        None
    } else if grid_fits(
        g,
        piece.piece_type,
        piece.x + kicks[start].0,
        piece.y + kicks[start].1,
        target,
    ) {
        Some(kicks[start])
    } else {
        first_fitting_kick(g, piece, target, kicks, start + 1)
    }
}

/// The wall kick that lets `piece` turn to `target`, if any does.
pub open spec fn rotation_kick(g: Grid, piece: Piece, target: RotationState) -> Option<(i32, i32)> {
    first_fitting_kick(
        g,
        piece,
        target,
        srs::kick_table(piece.piece_type, piece.rotation, target),
        0,
    )
}

/// Whether every cell of a row holds a block.
pub open spec fn row_full(row: Seq<Cell>) -> bool {
    forall|c: int| 0 <= c < BOARD_WIDTH ==> !((#[trigger] row[c]) is Empty)
}

/// Whether a row holds at least one garbage cell.
pub open spec fn row_has_garbage(row: Seq<Cell>) -> bool {
    exists|c: int| 0 <= c < BOARD_WIDTH && (#[trigger] row[c]) is Garbage
}

/// The indices of the full rows among the lowest `n` rows, ascending.
pub open spec fn full_rows_below(g: Grid, n: int) -> Seq<usize>
    decreases n,
{
    if n <= 0 {
        Seq::empty()
    } else if row_full(g[n - 1]) {
        full_rows_below(g, n - 1).push((n - 1) as usize)
    } else {
        full_rows_below(g, n - 1)
    }
}

/// The indices of all full rows, ascending.
pub open spec fn full_rows(g: Grid) -> Seq<usize> {
    full_rows_below(g, BOARD_HEIGHT as int)
}

/// The rows among the lowest `n` of `g` that `rows` does not list, in order.
pub open spec fn kept_rows(g: Grid, rows: Seq<usize>, n: int) -> Grid
    decreases n,
{
    if n <= 0 {
        Seq::empty()
    } else if rows.contains((n - 1) as usize) {
        kept_rows(g, rows, n - 1)
    } else {
        kept_rows(g, rows, n - 1).push(g[n - 1])
    }
}

/// The grid after the listed rows are removed: the rows that stay keep their
/// order and sink to the floor, and empty rows fill the top.
pub open spec fn grid_clear(g: Grid, rows: Seq<usize>) -> Grid {
    let kept = kept_rows(g, rows, BOARD_HEIGHT as int);
    kept + Seq::new((BOARD_HEIGHT - kept.len()) as nat, |i: int| empty_row())
}

/// Whether no cell of the grid holds a block.
pub open spec fn grid_is_empty(g: Grid) -> bool {
    forall|r: int, c: int| in_bounds(c, r) ==> (#[trigger] g[r][c]) is Empty
}

/// Height of a column counting only the lowest `n` rows: one more than the
/// highest row that holds a block, or 0.
pub open spec fn height_below(g: Grid, col: int, n: int) -> int
    decreases n,
{
    if n <= 0 {
        0
    } else if !(g[n - 1][col] is Empty) {
        n
    } else {
        height_below(g, col, n - 1)
    }
}

/// Height of a column: one more than its highest row that holds a block, or 0.
pub open spec fn column_height(g: Grid, col: int) -> int {
    height_below(g, col, BOARD_HEIGHT as int)
}

/// The greatest column height among the first `n` columns.
pub open spec fn max_height_of(g: Grid, n: int) -> int
    decreases n,
{
    if n <= 0 {
        0
    } else {
        let rest = max_height_of(g, n - 1);
        let h = column_height(g, n - 1);
        if h > rest {
            h
        } else {
            rest
        }
    }
}

/// The sum of the heights of the first `n` columns.
pub open spec fn height_sum(g: Grid, n: int) -> int
    decreases n,
{
    if n <= 0 {
        0
    } else {
        height_sum(g, n - 1) + column_height(g, n - 1)
    }
}

/// The distance between two heights.
pub open spec fn height_gap(a: int, b: int) -> int {
    if a >= b {
        a - b
    } else {
        b - a
    }
}

/// The sum of the height differences between neighbours among the first `n + 1` columns.
pub open spec fn bumpiness_of(g: Grid, n: int) -> int
    decreases n,
{
    if n <= 0 {
        0
    } else {
        bumpiness_of(g, n - 1) + height_gap(column_height(g, n - 1), column_height(g, n))
    }
}

/// The number of empty cells among the lowest `n` rows of a column.
pub open spec fn empty_cells_below(g: Grid, col: int, n: int) -> int
    decreases n,
{
    if n <= 0 {
        0
    } else {
        empty_cells_below(g, col, n - 1) + if g[n - 1][col] is Empty {
            1int
        } else {
            0int
        }
    }
}

/// The holes of a column: its empty cells that have a block somewhere above them.
pub open spec fn column_holes(g: Grid, col: int) -> int {
    empty_cells_below(g, col, column_height(g, col))
}

/// The holes of the first `n` columns together.
pub open spec fn holes_of(g: Grid, n: int) -> int
    decreases n,
{
    if n <= 0 {
        0
    } else {
        holes_of(g, n - 1) + column_holes(g, n - 1)
    }
}

/// A garbage row: solid but for one empty cell in column `gap`.
pub open spec fn garbage_row(gap: int) -> Seq<Cell> {
    Seq::new(
        BOARD_WIDTH as nat,
        |c: int|
            if c == gap {
                Cell::Empty
            } else {
                Cell::Garbage
            },
    )
}

/// The grid after `count` garbage rows with their gap in column `gap` are
/// pushed in at the floor: what was there moves up by `count` rows, and what
/// moves past the top is lost.
pub open spec fn grid_add_garbage(g: Grid, count: int, gap: int) -> Grid {
    Seq::new(
        BOARD_HEIGHT as nat,
        |r: int|
            if r < count {
                garbage_row(gap)
            } else {
                g[r - count]
            },
    )
}

/// How many of the first `n` listed rows hold a garbage cell.
pub open spec fn garbage_rows_among(g: Grid, rows: Seq<usize>, n: int) -> int
    decreases n,
{
    if n <= 0 {
        0
    } else {
        garbage_rows_among(g, rows, n - 1) + if row_has_garbage(g[rows[n - 1] as int]) {
            1int
        } else {
            0int
        }
    }
}

/// The full rows among the lowest `n` are listed in ascending order, each is
/// one of those rows and full, and every full row among them is listed.
pub proof fn lemma_full_rows_bounds(g: Grid, n: int)
    requires
        0 <= n <= BOARD_HEIGHT,
    ensures
        full_rows_below(g, n).len() <= n,
        forall|i: int|
            0 <= i < full_rows_below(g, n).len() ==> (#[trigger] full_rows_below(g, n)[i]) < n
                && row_full(g[full_rows_below(g, n)[i] as int]),
        forall|i: int, j: int|
            0 <= i < j < full_rows_below(g, n).len() ==> full_rows_below(g, n)[i]
                < full_rows_below(g, n)[j],
        forall|r: int|
            0 <= r < n && row_full(#[trigger] g[r]) ==> full_rows_below(g, n).contains(r as usize),
    decreases n,
{
    if n > 0 {
        lemma_full_rows_bounds(g, n - 1);
        let rest = full_rows_below(g, n - 1);
        let here = full_rows_below(g, n);
        assert forall|r: int| 0 <= r < n && row_full(#[trigger] g[r]) implies here.contains(
            r as usize,
        ) by {
            if r == n - 1 {
                assert(here[here.len() - 1] == r as usize);
            } else {
                assert(rest.contains(r as usize));
                let i = choose|i: int| 0 <= i < rest.len() && rest[i] == r as usize;
                assert(here[i] == r as usize);
            }
        }
    }
}

/// How many of the rows below row `n` are listed in `rows`.
pub open spec fn cleared_below(rows: Seq<usize>, n: int) -> int
    decreases n,
{
    if n <= 0 {
        0
    } else {
        cleared_below(rows, n - 1) + if rows.contains((n - 1) as usize) {
            1int
        } else {
            0int
        }
    }
}

/// The row in which row `r` comes to lie when the listed rows below it are removed.
pub open spec fn sunk_row(rows: Seq<usize>, r: int) -> int {
    r - cleared_below(rows, r)
}

/// Whether position `j` among the rows that stay of the lowest `n` holds a
/// row that is not listed and that sinks to that position.
pub open spec fn stays_from(g: Grid, rows: Seq<usize>, n: int, j: int) -> bool {
    exists|r: int|
        #![trigger sunk_row(rows, r)]
        0 <= r < n && !rows.contains(r as usize) && sunk_row(rows, r) == j && kept_rows(
            g,
            rows,
            n,
        )[j] == g[r]
}

/// Among the lowest `n` rows, those that stay are as many as are not
/// listed; each of them sinks by the number of listed rows below it; and
/// every position among those that stay holds one of them.
pub proof fn lemma_kept_rows(g: Grid, rows: Seq<usize>, n: int)
    requires
        0 <= n <= BOARD_HEIGHT,
    ensures
        0 <= cleared_below(rows, n) <= n,
        kept_rows(g, rows, n).len() == n - cleared_below(rows, n),
        forall|r: int|
            0 <= r < n && !rows.contains(r as usize) ==> 0 <= #[trigger] sunk_row(rows, r)
                < kept_rows(g, rows, n).len() && kept_rows(g, rows, n)[sunk_row(rows, r)] == g[r],
        forall|j: int|
            0 <= j < kept_rows(g, rows, n).len() ==> #[trigger] stays_from(g, rows, n, j),
    decreases n,
{
    if n > 0 {
        lemma_kept_rows(g, rows, n - 1);
        let rest = kept_rows(g, rows, n - 1);
        let here = kept_rows(g, rows, n);
        assert forall|r: int| 0 <= r < n && !rows.contains(r as usize) implies 0
            <= #[trigger] sunk_row(rows, r) < here.len() && here[sunk_row(rows, r)] == g[r] by {
            if r < n - 1 {
                assert(rest[sunk_row(rows, r)] == g[r]);
            }
        }
        assert forall|j: int| 0 <= j < kept_rows(g, rows, n).len() implies #[trigger] stays_from(
            g,
            rows,
            n,
            j,
        ) by {
            if j < rest.len() {
                assert(rest[j] == here[j]);
                assert(stays_from(g, rows, n - 1, j));
                let r = choose|r: int|
                    #![trigger sunk_row(rows, r)]
                    0 <= r < n - 1 && !rows.contains(r as usize) && sunk_row(rows, r) == j
                        && rest[j] == g[r];
                assert(0 <= r < n && !rows.contains(r as usize) && sunk_row(rows, r) == j
                    && here[j] == g[r]);
            } else {
                assert(0 <= n - 1 < n && !rows.contains((n - 1) as usize) && sunk_row(rows, n - 1)
                    == j && here[j] == g[n - 1]);
            }
        }
    } else {
        assert(kept_rows(g, rows, n).len() == 0);
    }
}

/// Between two rows there are no more cleared rows than rows.
pub proof fn lemma_cleared_below_grows(rows: Seq<usize>, r: int, s: int)
    requires
        0 <= r <= s,
    ensures
        cleared_below(rows, r) <= cleared_below(rows, s) <= s - r + cleared_below(rows, r),
    decreases s - r,
{
    if r < s {
        lemma_cleared_below_grows(rows, r, s - 1);
    }
}

/// Clearing rows lets every row that is not cleared sink by exactly the
/// number of cleared rows below it, so that a row that was below another
/// stays below it, and leaves as many empty rows at the top as rows were
/// cleared.
pub proof fn lemma_clear_shifts_rows(g: Grid, rows: Seq<usize>)
    requires
        grid_wf(g),
    ensures
        grid_wf(grid_clear(g, rows)),
        forall|r: int|
            0 <= r < BOARD_HEIGHT && !rows.contains(r as usize) ==> 0 <= #[trigger] sunk_row(
                rows,
                r,
            ) <= r && grid_clear(g, rows)[sunk_row(rows, r)] == g[r],
        forall|r: int, s: int|
            0 <= r < s < BOARD_HEIGHT && !rows.contains(r as usize) && !rows.contains(s as usize)
                ==> #[trigger] sunk_row(rows, r) < #[trigger] sunk_row(rows, s),
        forall|r: int|
            BOARD_HEIGHT - cleared_below(rows, BOARD_HEIGHT as int) <= r < BOARD_HEIGHT
                ==> #[trigger] grid_clear(g, rows)[r] == empty_row(),
{
    lemma_kept_rows(g, rows, BOARD_HEIGHT as int);
    let kept = kept_rows(g, rows, BOARD_HEIGHT as int);
    let cleared = grid_clear(g, rows);
    assert forall|r: int| 0 <= r < BOARD_HEIGHT implies (#[trigger] cleared[r]).len()
        == BOARD_WIDTH by {
        if r < kept.len() {
            assert(stays_from(g, rows, BOARD_HEIGHT as int, r));
            let src = choose|src: int|
                0 <= src < BOARD_HEIGHT && !rows.contains(src as usize) && #[trigger] sunk_row(
                    rows,
                    src,
                ) == r && kept[r] == g[src];
            assert(cleared[r] == g[src]);
        }
    }
    assert forall|r: int| 0 <= r < BOARD_HEIGHT && !rows.contains(r as usize) implies 0
        <= #[trigger] sunk_row(rows, r) <= r && cleared[sunk_row(rows, r)] == g[r] by {
        lemma_cleared_below_grows(rows, 0, r);
        assert(kept[sunk_row(rows, r)] == g[r]);
    }
    assert forall|r: int, s: int|
        0 <= r < s < BOARD_HEIGHT && !rows.contains(r as usize) && !rows.contains(
            s as usize,
        ) implies #[trigger] sunk_row(rows, r) < #[trigger] sunk_row(rows, s) by {
        lemma_cleared_below_grows(rows, r + 1, s);
        assert(cleared_below(rows, r + 1) == cleared_below(rows, r));
    }
}

/// A cleared row reads empty afterwards unless a row from above sinks into
/// its place: if every row that comes to lie on a cleared row is empty, then
/// every cell of every cleared row is empty after the clear.
pub proof fn lemma_cleared_rows_read_empty(g: Grid, rows: Seq<usize>)
    requires
        grid_wf(g),
        forall|s: int|
            0 <= s < BOARD_HEIGHT && !rows.contains(s as usize) && rows.contains(
                #[trigger] sunk_row(rows, s) as usize,
            ) ==> g[s] == empty_row(),
    ensures
        forall|r: int, c: int|
            0 <= r < BOARD_HEIGHT && rows.contains(r as usize) && 0 <= c < BOARD_WIDTH ==> (
            #[trigger] grid_clear(g, rows)[r][c]) is Empty,
{
    lemma_kept_rows(g, rows, BOARD_HEIGHT as int);
    let kept = kept_rows(g, rows, BOARD_HEIGHT as int);
    let cleared = grid_clear(g, rows);
    assert forall|r: int, c: int|
        0 <= r < BOARD_HEIGHT && rows.contains(r as usize) && 0 <= c < BOARD_WIDTH implies (
    #[trigger] cleared[r][c]) is Empty by {
        if r < kept.len() {
            assert(stays_from(g, rows, BOARD_HEIGHT as int, r));
            let s = choose|s: int|
                0 <= s < BOARD_HEIGHT && !rows.contains(s as usize) && #[trigger] sunk_row(rows, s)
                    == r && kept[r] == g[s];
            assert(cleared[r] == g[s]);
            assert(g[s] == empty_row());
        } else {
            assert(cleared[r] == empty_row());
        }
    }
}

/// A board on which only cleared rows hold anything is empty after the clear.
pub proof fn lemma_clear_of_all_leaves_empty(g: Grid, rows: Seq<usize>)
    requires
        grid_wf(g),
        forall|r: int|
            0 <= r < BOARD_HEIGHT && !rows.contains(r as usize) ==> #[trigger] g[r] == empty_row(),
    ensures
        grid_clear(g, rows) == empty_grid(),
{
    lemma_kept_rows(g, rows, BOARD_HEIGHT as int);
    let kept = kept_rows(g, rows, BOARD_HEIGHT as int);
    let cleared = grid_clear(g, rows);
    assert forall|r: int| 0 <= r < BOARD_HEIGHT implies #[trigger] cleared[r] == empty_row() by {
        if r < kept.len() {
            assert(stays_from(g, rows, BOARD_HEIGHT as int, r));
            let s = choose|s: int|
                0 <= s < BOARD_HEIGHT && !rows.contains(s as usize) && #[trigger] sunk_row(rows, s)
                    == r && kept[r] == g[s];
            assert(cleared[r] == g[s]);
        }
    }
    assert(cleared =~= empty_grid());
}

/// Garbage comes in as rows that are empty in the gap column and nowhere
/// else, and lifts every cell that was on the board by the number of rows
/// that came in.
pub proof fn lemma_garbage_rows(g: Grid, count: int, gap: int)
    requires
        grid_wf(g),
        count > 0,
        0 <= gap < BOARD_WIDTH,
    ensures
        grid_wf(grid_add_garbage(g, count, gap)),
        forall|r: int, c: int|
            0 <= r < count && in_bounds(c, r) ==> ((#[trigger] grid_add_garbage(
                g,
                count,
                gap,
            )[r][c]) is Empty <==> c == gap) && (c != gap ==> grid_add_garbage(g, count, gap)[r][c]
                is Garbage),
        forall|r: int, c: int|
            in_bounds(c, r) && r + count < BOARD_HEIGHT ==> grid_add_garbage(g, count, gap)[r
                + count][c] == #[trigger] g[r][c],
{
}

/// The playfield. Row 0 is the floor; only the lower rows are shown.
#[derive(Debug, Clone, Copy)]
pub struct Board {
    /// Cells by row and then by column.
    pub grid: [[Cell; BOARD_WIDTH]; BOARD_HEIGHT],
}

impl View for Board {
    type V = Grid;

    open spec fn view(&self) -> Grid {
        Seq::new(
            BOARD_HEIGHT as nat,
            |r: int| Seq::new(BOARD_WIDTH as nat, |c: int| self.grid[r][c]),
        )
    }
}

impl Board {
    /// An empty playfield.
    pub fn new() -> (board: Board)
        ensures
            board@ == empty_grid(),
    {
        let board = Board { grid: [[Cell::Empty; BOARD_WIDTH]; BOARD_HEIGHT] };
        assert(board@ =~~= empty_grid());
        board
    }

    /// The view of any board has the playfield's size.
    pub proof fn lemma_view_wf(&self)
        ensures
            grid_wf(self@),
    {
    }

    /// The cell at (`col`, `row`). A position off the playfield reads as solid.
    pub fn get(&self, col: i32, row: i32) -> (cell: Cell)
        ensures
            cell == grid_get(self@, col as int, row as int),
    {
        if col < 0 || col >= BOARD_WIDTH as i32 || row < 0 || row >= BOARD_HEIGHT as i32 {
            return Cell::Filled(PieceType::I);
        }
        self.grid[row as usize][col as usize]
    }

    /// Replaces the cell at (`col`, `row`). A position off the playfield is ignored.
    pub fn set(&mut self, col: i32, row: i32, cell: Cell)
        ensures
            final(self)@ == grid_set(old(self)@, col as int, row as int, cell),
    {
        if col >= 0 && col < BOARD_WIDTH as i32 && row >= 0 && row < BOARD_HEIGHT as i32 {
            let mut cells = self.grid[row as usize];
            cells[col as usize] = cell;
            self.grid[row as usize] = cells;
            assert(self@ =~~= grid_set(old(self)@, col as int, row as int, cell));
        }
    }

    /// Collision test on coordinates wide enough that no sum can overflow.
    fn fits_wide(&self, piece_type: PieceType, x: i64, y: i64, rotation: RotationState) -> (ok:
        bool)
        requires
            -0x1_0000_0000 <= x <= 0x1_0000_0000,
            -0x1_0000_0000 <= y <= 0x1_0000_0000,
        ensures
            ok == grid_fits(self@, piece_type, x as int, y as int, rotation),
    {
        let offsets = get_cells(piece_type, rotation);
        let ghost cells = cells_of(piece_type, x as int, y as int, rotation);
        let mut i: usize = 0;
        while i < 4
            invariant
                i <= 4,
                -0x1_0000_0000 <= x <= 0x1_0000_0000,
                -0x1_0000_0000 <= y <= 0x1_0000_0000,
                cells_view(offsets) == shape(piece_type, rotation),
                cells == cells_of(piece_type, x as int, y as int, rotation),
                forall|j: int| 0 <= j < i ==> cell_free(self@, (#[trigger] cells[j]).0, cells[j].1),
            decreases 4 - i,
        {
            assert(cells_view(offsets)[i as int] == shape(piece_type, rotation)[i as int]);
            let col: i64 = x + offsets[i].0 as i64;
            let row: i64 = y + offsets[i].1 as i64;
            assert(cells[i as int] == (col as int, row as int));
            if col < 0 || col >= BOARD_WIDTH as i64 || row < 0 || row >= BOARD_HEIGHT as i64 {
                return false;
            }
            if self.grid[row as usize][col as usize].is_occupied() {
                return false;
            }
            i += 1;
        }
        true
    }

    /// Whether `piece` fits where it stands: every cell on the playfield and empty.
    pub fn piece_fits(&self, piece: &Piece) -> (ok: bool)
        ensures
            ok == piece_fits_grid(self@, *piece),
    {
        self.fits_wide(piece.piece_type, piece.x as i64, piece.y as i64, piece.rotation)
    }

    /// Whether `piece` would fit with its origin at (`x`, `y`) in orientation `rotation`.
    pub fn fits_at(&self, piece: &Piece, x: i32, y: i32, rotation: RotationState) -> (ok: bool)
        ensures
            ok == grid_fits(self@, piece.piece_type, x as int, y as int, rotation),
    {
        self.fits_wide(piece.piece_type, x as i64, y as i64, rotation)
    }

    /// Tries the wall-kick candidates for turning `piece` to `target_rotation`
    /// in order and returns the first offset at which the turned piece fits.
    pub fn try_rotate(&self, piece: &Piece, target_rotation: RotationState) -> (kick: Option<
        (i32, i32),
    >)
        ensures
            kick == rotation_kick(self@, *piece, target_rotation),
    {
        let kicks = srs::get_kicks(piece.piece_type, piece.rotation, target_rotation);
        let mut i: usize = 0;
        while i < kicks.len()
            invariant
                i <= kicks@.len(),
                kicks@ == srs::kick_table(piece.piece_type, piece.rotation, target_rotation),
                first_fitting_kick(self@, *piece, target_rotation, kicks@, i as int)
                    == rotation_kick(self@, *piece, target_rotation),
            decreases kicks@.len() - i,
        {
            let (dx, dy) = kicks[i];
            if self.fits_wide(
                piece.piece_type,
                piece.x as i64 + dx as i64,
                piece.y as i64 + dy as i64,
                target_rotation,
            ) {
                return Some((dx, dy));
            }
            i += 1;
        }
        None
    }

    /// Fills the cells of `piece` with blocks of its shape.
    pub fn lock_piece(&mut self, piece: &Piece)
        ensures
            final(self)@ == grid_lock(old(self)@, piece.spec_cells(), piece.piece_type),
    {
        let offsets = get_cells(piece.piece_type, piece.rotation);
        let ghost cells = piece.spec_cells();
        let mut i: usize = 0;
        while i < 4
            invariant
                i <= 4,
                cells_view(offsets) == shape(piece.piece_type, piece.rotation),
                cells == piece.spec_cells(),
                forall|r: int, c: int|
                    0 <= r < BOARD_HEIGHT && 0 <= c < BOARD_WIDTH ==> #[trigger] self@[r][c] == (
                    if exists|j: int| 0 <= j < i && cells[j] == (c, r) {
                        Cell::Filled(piece.piece_type)
                    } else {
                        old(self)@[r][c]
                    }),
            decreases 4 - i,
        {
            assert(cells_view(offsets)[i as int] == shape(
                piece.piece_type,
                piece.rotation,
            )[i as int]);
            let col: i64 = piece.x as i64 + offsets[i].0 as i64;
            let row: i64 = piece.y as i64 + offsets[i].1 as i64;
            assert(cells[i as int] == (col as int, row as int));
            let ghost before = self@;
            if col >= 0 && col < BOARD_WIDTH as i64 && row >= 0 && row < BOARD_HEIGHT as i64 {
                self.set(col as i32, row as i32, Cell::Filled(piece.piece_type));
            }
            assert forall|r: int, c: int|
                0 <= r < BOARD_HEIGHT && 0 <= c < BOARD_WIDTH implies #[trigger] self@[r][c] == (
            if exists|j: int| 0 <= j < i + 1 && cells[j] == (c, r) {
                Cell::Filled(piece.piece_type)
            } else {
                old(self)@[r][c]
            }) by {
                if cells[i as int] == (c, r) {
                } else {
                    assert(self@[r][c] == before[r][c]);
                    if exists|j: int| 0 <= j < i + 1 && cells[j] == (c, r) {
                        let j = choose|j: int| 0 <= j < i + 1 && cells[j] == (c, r);
                        assert(0 <= j < i && cells[j] == (c, r));
                    }
                }
            }
            i += 1;
        }
        assert(self@ =~~= grid_lock(old(self)@, cells, piece.piece_type)) by {
            assert forall|r: int, c: int|
                0 <= r < BOARD_HEIGHT && 0 <= c < BOARD_WIDTH implies #[trigger] self@[r][c]
                == grid_lock(old(self)@, cells, piece.piece_type)[r][c] by {
                if covers(cells, c, r) {
                    assert(exists|j: int| 0 <= j < 4 && cells[j] == (c, r));
                }
            }
        }
    }
    /// Whether every cell of row `row` holds a block.
    fn row_is_full(&self, row: usize) -> (full: bool)
        requires
            row < BOARD_HEIGHT,
        ensures
            full == row_full(self@[row as int]),
    {
        let mut col: usize = 0;
        while col < BOARD_WIDTH
            invariant
                col <= BOARD_WIDTH,
                row < BOARD_HEIGHT,
                forall|c: int| 0 <= c < col ==> !((#[trigger] self@[row as int][c]) is Empty),
            decreases BOARD_WIDTH - col,
        {
            if self.grid[row][col].is_empty() {
                assert(self@[row as int][col as int] is Empty);
                return false;
            }
            col += 1;
        }
        true
    }

    /// Whether row `row` holds a garbage cell.
    fn row_holds_garbage(&self, row: usize) -> (found: bool)
        requires
            row < BOARD_HEIGHT,
        ensures
            found == row_has_garbage(self@[row as int]),
    {
        let mut col: usize = 0;
        while col < BOARD_WIDTH
            invariant
                col <= BOARD_WIDTH,
                row < BOARD_HEIGHT,
                forall|c: int| 0 <= c < col ==> !((#[trigger] self@[row as int][c]) is Garbage),
            decreases BOARD_WIDTH - col,
        {
            match self.grid[row][col] {
                Cell::Garbage => {
                    assert(self@[row as int][col as int] is Garbage);
                    return true;
                },
                _ => {},
            }
            col += 1;
        }
        false
    }

    /// The indices of the rows in which every cell holds a block, ascending.
    pub fn find_full_lines(&self) -> (full: Vec<usize>)
        ensures
            full@ == full_rows(self@),
    {
        let mut full: Vec<usize> = Vec::new();
        let mut row: usize = 0;
        while row < BOARD_HEIGHT
            invariant
                row <= BOARD_HEIGHT,
                full@ == full_rows_below(self@, row as int),
            decreases BOARD_HEIGHT - row,
        {
            if self.row_is_full(row) {
                full.push(row);
            }
            row += 1;
        }
        full
    }

    /// Removes the listed rows and lets everything above them sink. The rows
    /// that stay keep their order; the top is filled with empty rows.
    pub fn clear_lines(&mut self, rows: &[usize])
        ensures
            final(self)@ == grid_clear(old(self)@, rows@),
    {
        let mut new_grid = [[Cell::Empty; BOARD_WIDTH]; BOARD_HEIGHT];
        let mut dest: usize = 0;
        let mut src: usize = 0;
        while src < BOARD_HEIGHT
            invariant
                src <= BOARD_HEIGHT,
                dest <= src,
                dest == kept_rows(self@, rows@, src as int).len(),
                forall|j: int, c: int|
                    0 <= j < dest && 0 <= c < BOARD_WIDTH ==> #[trigger] new_grid[j][c]
                        == kept_rows(self@, rows@, src as int)[j][c],
                forall|j: int|
                    0 <= j < dest ==> (#[trigger] kept_rows(self@, rows@, src as int)[j]).len()
                        == BOARD_WIDTH,
                forall|j: int, c: int|
                    dest <= j < BOARD_HEIGHT && 0 <= c < BOARD_WIDTH ==> (
                    #[trigger] new_grid[j][c]) is Empty,
            decreases BOARD_HEIGHT - src,
        {
            if !slice_contains(rows, src) {
                new_grid[dest] = self.grid[src];
                dest += 1;
            }
            src += 1;
        }
        let ghost before = self@;
        self.grid = new_grid;
        assert(self@ =~~= grid_clear(before, rows@));
    }

    /// Whether no cell holds a block.
    pub fn is_empty(&self) -> (empty: bool)
        ensures
            empty == grid_is_empty(self@),
    {
        let mut row: usize = 0;
        while row < BOARD_HEIGHT
            invariant
                row <= BOARD_HEIGHT,
                forall|r: int, c: int|
                    0 <= r < row && 0 <= c < BOARD_WIDTH ==> (#[trigger] self@[r][c]) is Empty,
            decreases BOARD_HEIGHT - row,
        {
            let mut col: usize = 0;
            while col < BOARD_WIDTH
                invariant
                    col <= BOARD_WIDTH,
                    row < BOARD_HEIGHT,
                    forall|r: int, c: int|
                        0 <= r < row && 0 <= c < BOARD_WIDTH ==> (#[trigger] self@[r][c]) is Empty,
                    forall|c: int| 0 <= c < col ==> (#[trigger] self@[row as int][c]) is Empty,
                decreases BOARD_WIDTH - col,
            {
                if self.grid[row][col].is_occupied() {
                    assert(!(self@[row as int][col as int] is Empty));
                    return false;
                }
                col += 1;
            }
            row += 1;
        }
        true
    }

    /// Height of column `col`: one more than its highest row that holds a block, or 0.
    pub fn column_height(&self, col: usize) -> (height: usize)
        requires
            col < BOARD_WIDTH,
        ensures
            height == column_height(self@, col as int),
            height <= BOARD_HEIGHT,
    {
        let mut row: usize = BOARD_HEIGHT;
        while row > 0
            invariant
                row <= BOARD_HEIGHT,
                col < BOARD_WIDTH,
                height_below(self@, col as int, row as int) == column_height(self@, col as int),
            decreases row,
        {
            if self.grid[row - 1][col].is_occupied() {
                return row;
            }
            row -= 1;
        }
        0
    }

    /// The greatest column height.
    pub fn max_height(&self) -> (height: usize)
        ensures
            height == max_height_of(self@, BOARD_WIDTH as int),
            height <= BOARD_HEIGHT,
    {
        let mut best: usize = 0;
        let mut col: usize = 0;
        while col < BOARD_WIDTH
            invariant
                col <= BOARD_WIDTH,
                best == max_height_of(self@, col as int),
                best <= BOARD_HEIGHT,
            decreases BOARD_WIDTH - col,
        {
            let h = self.column_height(col);
            if h > best {
                best = h;
            }
            col += 1;
        }
        best
    }

    /// The number of holes: empty cells with a block somewhere above them in their column.
    pub fn count_holes(&self) -> (holes: usize)
        ensures
            holes == holes_of(self@, BOARD_WIDTH as int),
            holes <= BOARD_WIDTH * BOARD_HEIGHT,
    {
        let mut holes: usize = 0;
        let mut col: usize = 0;
        while col < BOARD_WIDTH
            invariant
                col <= BOARD_WIDTH,
                holes == holes_of(self@, col as int),
                holes <= col * BOARD_HEIGHT,
            decreases BOARD_WIDTH - col,
        {
            let height = self.column_height(col);
            let mut in_column: usize = 0;
            let mut row: usize = 0;
            while row < height
                invariant
                    row <= height <= BOARD_HEIGHT,
                    col < BOARD_WIDTH,
                    in_column == empty_cells_below(self@, col as int, row as int),
                    in_column <= row,
                decreases height - row,
            {
                if self.grid[row][col].is_empty() {
                    in_column += 1;
                }
                row += 1;
            }
            holes += in_column;
            col += 1;
        }
        holes
    }

    /// The sum of all column heights.
    pub fn aggregate_height(&self) -> (total: usize)
        ensures
            total == height_sum(self@, BOARD_WIDTH as int),
            total <= BOARD_WIDTH * BOARD_HEIGHT,
    {
        let mut total: usize = 0;
        let mut col: usize = 0;
        while col < BOARD_WIDTH
            invariant
                col <= BOARD_WIDTH,
                total == height_sum(self@, col as int),
                total <= col * BOARD_HEIGHT,
            decreases BOARD_WIDTH - col,
        {
            total += self.column_height(col);
            col += 1;
        }
        total
    }

    /// The sum of the height differences between neighbouring columns.
    pub fn bumpiness(&self) -> (total: usize)
        ensures
            total == bumpiness_of(self@, BOARD_WIDTH - 1),
            total <= (BOARD_WIDTH - 1) * BOARD_HEIGHT,
    {
        let mut total: usize = 0;
        let mut col: usize = 1;
        let mut left = self.column_height(0);
        while col < BOARD_WIDTH
            invariant
                1 <= col <= BOARD_WIDTH,
                left == column_height(self@, col - 1),
                left <= BOARD_HEIGHT,
                total == bumpiness_of(self@, col - 1),
                total <= (col - 1) * BOARD_HEIGHT,
            decreases BOARD_WIDTH - col,
        {
            let here = self.column_height(col);
            if left >= here {
                total += left - here;
            } else {
                total += here - left;
            }
            left = here;
            col += 1;
        }
        total
    }

    /// Pushes `count` garbage rows in at the floor, each solid but for the
    /// cell in column `gap_col`. What was on the playfield moves up by `count` rows.
    pub fn add_garbage(&mut self, count: usize, gap_col: usize)
        requires
            count == 0 || gap_col < BOARD_WIDTH,
        ensures
            final(self)@ == grid_add_garbage(old(self)@, count as int, gap_col as int),
    {
        let mut row: usize = BOARD_HEIGHT;
        while row > 0
            invariant
                row <= BOARD_HEIGHT,
                count == 0 || gap_col < BOARD_WIDTH,
                forall|r: int, c: int|
                    0 <= r < row && 0 <= c < BOARD_WIDTH ==> #[trigger] self@[r][c] == old(
                        self,
                    )@[r][c],
                forall|r: int, c: int|
                    row <= r < BOARD_HEIGHT && 0 <= c < BOARD_WIDTH ==> #[trigger] self@[r][c]
                        == grid_add_garbage(old(self)@, count as int, gap_col as int)[r][c],
            decreases row,
        {
            row -= 1;
            let ghost prev = *self;
            if row >= count {
                let moved = self.grid[row - count];
                self.grid[row] = moved;
                assert(self.grid@ == prev.grid@.update(row as int, moved));
            } else {
                let mut garbage = [Cell::Garbage; BOARD_WIDTH];
                garbage[gap_col] = Cell::Empty;
                self.grid[row] = garbage;
                assert(self.grid@ == prev.grid@.update(row as int, garbage));
                assert(garbage@ =~= garbage_row(gap_col as int));
            }
            assert forall|r: int, c: int|
                0 <= r < row && 0 <= c < BOARD_WIDTH implies #[trigger] self@[r][c] == old(
                self,
            )@[r][c] by {
                assert(self@[r][c] == prev@[r][c]);
            }
            assert forall|r: int, c: int|
                row <= r < BOARD_HEIGHT && 0 <= c < BOARD_WIDTH implies #[trigger] self@[r][c]
                == grid_add_garbage(old(self)@, count as int, gap_col as int)[r][c] by {
                if r == row {
                    if row >= count {
                        assert(prev@[row - count][c] == old(self)@[row - count][c]);
                    }
                } else {
                    assert(self@[r][c] == prev@[r][c]);
                }
            }
        }
        assert(self@ =~~= grid_add_garbage(old(self)@, count as int, gap_col as int));
    }

    /// How many of the listed rows hold at least one garbage cell.
    pub fn count_garbage_in_rows(&self, rows: &[usize]) -> (count: usize)
        requires
            forall|i: int| 0 <= i < rows@.len() ==> (#[trigger] rows@[i]) < BOARD_HEIGHT,
        ensures
            count == garbage_rows_among(self@, rows@, rows@.len() as int),
            count <= rows@.len(),
    {
        let mut count: usize = 0;
        let mut i: usize = 0;
        while i < rows.len()
            invariant
                i <= rows@.len(),
                count <= i,
                count == garbage_rows_among(self@, rows@, i as int),
                forall|k: int| 0 <= k < rows@.len() ==> (#[trigger] rows@[k]) < BOARD_HEIGHT,
            decreases rows@.len() - i,
        {
            if self.row_holds_garbage(rows[i]) {
                count += 1;
            }
            i += 1;
        }
        count
    }

    /// Whether `piece` overlaps a block or leaves the playfield where it stands.
    pub fn is_blocked(&self, piece: &Piece) -> (blocked: bool)
        ensures
            blocked == !piece_fits_grid(self@, *piece),
    {
        !self.piece_fits(piece)
    }
}

/// Whether `rows` lists `row`.
fn slice_contains(rows: &[usize], row: usize) -> (found: bool)
    ensures
        found == rows@.contains(row),
{
    let mut i: usize = 0;
    while i < rows.len()
        invariant
            i <= rows@.len(),
            forall|k: int| 0 <= k < i ==> rows@[k] != row,
        decreases rows@.len() - i,
    {
        if rows[i] == row {
            return true;
        }
        i += 1;
    }
    false
}

} // verus!
