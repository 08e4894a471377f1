//! The search over placements: every orientation and column is tried, the
//! piece is dropped, the lock is played out on a copy of the board, and the
//! board that results is rated.

use vstd::prelude::*;
use super::difficulty::EvalWeights;
use super::evaluator::{board_score, evaluate};
use crate::game::board::{
    empty_grid, full_rows, grid_clear, grid_fits, grid_lock, lemma_full_rows_bounds, Board, Grid,
    BOARD_HEIGHT,
};
use crate::game::movement::{hard_drop, landing_y, lemma_landing};
use crate::game::piece::{cells_of, Piece, PieceType, RotationState, SPAWN_Y};

verus! {

/// The leftmost column that the search tries for the origin of a piece.
pub const SEARCH_MIN_X: i32 = -2;

/// One past the rightmost column that the search tries.
pub const SEARCH_END_X: i32 = 12;

/// How many pairs of orientation and column the search tries.
pub const SEARCH_SIZE: usize = 56;

/// Where a piece can come to rest, and how good the board is then.
#[derive(Debug, Clone, Copy, PartialEq, Eq, Structural)]
pub struct Placement {
    pub piece_type: PieceType,
    pub rotation: RotationState,
    pub x: i32,
    pub y: i32,
    /// The rating of the board after the lock, in hundredths.
    pub score: i64,
    /// Whether the piece has to come out of the hold slot first.
    pub use_hold: bool,
}

/// The highest row at or below `y` in which the shape fits in column `x`.
pub open spec fn first_fit_below(
    g: Grid,
    piece_type: PieceType,
    x: int,
    rotation: RotationState,
    y: int,
) -> Option<int>
    decreases y + 1,
{
    if y < 0 {
        None
    } else if grid_fits(g, piece_type, x, y, rotation) {
        Some(y)
    } else {
        first_fit_below(g, piece_type, x, rotation, y - 1)
    }
}

/// The row from which the search drops the shape in column `x`: the spawn
/// row if the shape fits there, otherwise the highest row below it in which
/// the shape fits.
pub open spec fn start_row(
    g: Grid,
    piece_type: PieceType,
    x: int,
    rotation: RotationState,
) -> Option<int> {
    first_fit_below(g, piece_type, x, rotation, SPAWN_Y as int)
}

/// The rating of the board after the shape locks at (`x`, `y`) and the rows
/// that it fills are cleared.
pub open spec fn lock_score(
    g: Grid,
    piece_type: PieceType,
    x: int,
    y: int,
    rotation: RotationState,
    w: EvalWeights,
) -> int {
    let locked = grid_lock(g, cells_of(piece_type, x, y, rotation), piece_type);
    board_score(grid_clear(locked, full_rows(locked)), full_rows(locked).len() as u32, w)
}

/// The placement that the search finds for an orientation and a column, if
/// the shape fits anywhere in that column.
pub open spec fn candidate(
    g: Grid,
    piece_type: PieceType,
    rotation: RotationState,
    x: int,
    w: EvalWeights,
    use_hold: bool,
) -> Option<Placement> {
    match start_row(g, piece_type, x, rotation) {
        Some(start) => {
            let y = landing_y(g, piece_type, x, start, rotation);
            Some(
                Placement {
                    piece_type,
                    rotation,
                    x: x as i32,
                    y: y as i32,
                    score: lock_score(g, piece_type, x, y, rotation, w) as i64,
                    use_hold,
                },
            )
        },
        None => None,
    }
}

/// The orientation with the given position on the clockwise cycle.
pub open spec fn rotation_at(k: int) -> RotationState {
    RotationState::R0.turned(k)
}

/// The placements of the first `n` pairs of orientation and column, in the
/// order of the search: orientation by orientation, each from left to right.
pub open spec fn candidates_upto(
    g: Grid,
    piece_type: PieceType,
    w: EvalWeights,
    use_hold: bool,
    n: int,
) -> Seq<Placement>
    decreases n,
{
    if n <= 0 {
        Seq::empty()
    } else {
        let rest = candidates_upto(g, piece_type, w, use_hold, n - 1);
        match candidate(
            g,
            piece_type,
            rotation_at((n - 1) / 14),
            (n - 1) % 14 + SEARCH_MIN_X,
            w,
            use_hold,
        ) {
            Some(p) => rest.push(p),
            None => rest,
        }
    }
}

/// A ranking with `p` put in: behind every placement that rates at least as
/// high, in front of the rest.
pub open spec fn insert_ranked(s: Seq<Placement>, p: Placement) -> Seq<Placement>
    decreases s.len(),
{
    if s.len() == 0 {
        seq![p]
    } else if s[0].score >= p.score {
        seq![s[0]] + insert_ranked(s.drop_first(), p)
    } else {
        seq![p] + s
    }
}

/// The placements ranked by rating, best first; placements that rate the
/// same keep the order in which they were found.
pub open spec fn ranked(c: Seq<Placement>) -> Seq<Placement>
    decreases c.len(),
{
    if c.len() == 0 {
        c
    } else {
        insert_ranked(ranked(c.drop_last()), c.last())
    }
}

/// All placements of a shape on a board, ranked.
pub open spec fn placements_of(
    g: Grid,
    piece_type: PieceType,
    w: EvalWeights,
    use_hold: bool,
) -> Seq<Placement> {
    ranked(candidates_upto(g, piece_type, w, use_hold, SEARCH_SIZE as int))
}

/// Whether a placement is a resting position of its shape on the board: the
/// shape fits there and cannot move down.
pub open spec fn is_resting(g: Grid, p: Placement) -> bool {
    grid_fits(g, p.piece_type, p.x as int, p.y as int, p.rotation) && !grid_fits(
        g,
        p.piece_type,
        p.x as int,
        p.y - 1,
        p.rotation,
    )
}

/// Whether the ratings never rise along the sequence.
pub open spec fn is_ranked(s: Seq<Placement>) -> bool {
    forall|i: int, j: int| 0 <= i < j < s.len() ==> s[i].score >= s[j].score
}

/// The better of the best placement of the piece in play and the best
/// placement of the held shape; the held shape wins only if it rates
/// strictly higher.
pub open spec fn best_placement(
    g: Grid,
    current_type: PieceType,
    hold_type: Option<PieceType>,
    w: EvalWeights,
    use_hold: bool,
) -> Option<Placement> {
    let own = placements_of(g, current_type, w, false);
    let best = if own.len() > 0 {
        Some(own[0])
    } else {
        None
    };
    if use_hold && hold_type is Some {
        let held = placements_of(g, hold_type->0, w, true);
        if held.len() > 0 && (best is None || held[0].score > best->0.score) {
            Some(held[0])
        } else {
            best
        }
    } else {
        best
    }
}

/// Where the highest fit is found, the shape fits, and nowhere between it
/// and the row where the search began.
pub proof fn lemma_first_fit(
    g: Grid,
    piece_type: PieceType,
    x: int,
    rotation: RotationState,
    y: int,
)
    ensures
        first_fit_below(g, piece_type, x, rotation, y) matches Some(row) ==> 0 <= row <= y
            && grid_fits(g, piece_type, x, row, rotation),
        first_fit_below(g, piece_type, x, rotation, y) is None ==> forall|row: int|
            0 <= row <= y ==> !#[trigger] grid_fits(g, piece_type, x, row, rotation),
    decreases y + 1,
{
    if y >= 0 && !grid_fits(g, piece_type, x, y, rotation) {
        lemma_first_fit(g, piece_type, x, rotation, y - 1);
    }
}

/// Every placement that the search finds is a resting position in the
/// searched range, of the shape and with the hold flag that were asked for.
pub proof fn lemma_candidate(
    g: Grid,
    piece_type: PieceType,
    rotation: RotationState,
    x: int,
    w: EvalWeights,
    use_hold: bool,
)
    requires
        SEARCH_MIN_X <= x < SEARCH_END_X,
    ensures
        candidate(g, piece_type, rotation, x, w, use_hold) matches Some(p) ==> is_resting(g, p)
            && p.piece_type == piece_type && p.rotation == rotation && p.x == x && 0 <= p.y
            <= SPAWN_Y && p.use_hold == use_hold,
{
    lemma_first_fit(g, piece_type, x, rotation, SPAWN_Y as int);
    if let Some(start) = start_row(g, piece_type, x, rotation) {
        lemma_landing(g, piece_type, x, start, rotation);
        let y = landing_y(g, piece_type, x, start, rotation);
        if y < start {
            assert(grid_fits(g, piece_type, x, y, rotation));
        }
    }
}

/// Putting a placement into a ranking at the first position whose placement
/// rates lower gives the ranking with the placement put in.
pub proof fn lemma_insert_ranked_at(s: Seq<Placement>, p: Placement, pos: int)
    requires
        0 <= pos <= s.len(),
        forall|i: int| 0 <= i < pos ==> s[i].score >= p.score,
        pos < s.len() ==> s[pos].score < p.score,
    ensures
        insert_ranked(s, p) == s.insert(pos, p),
    decreases s.len(),
{
    if s.len() == 0 {
        assert(s.insert(pos, p) =~= seq![p]);
    } else if pos == 0 {
        assert(s.insert(0, p) =~= seq![p] + s);
    } else {
        lemma_insert_ranked_at(s.drop_first(), p, pos - 1);
        assert(s.insert(pos, p) =~= seq![s[0]] + s.drop_first().insert(pos - 1, p));
    }
}

/// Putting a placement into a ranking keeps it a ranking, makes it one
/// longer, and keeps whatever holds of all its placements and of the new one.
pub proof fn lemma_insert_ranked(s: Seq<Placement>, p: Placement, holds: spec_fn(Placement) -> bool)
    requires
        is_ranked(s),
        forall|i: int| 0 <= i < s.len() ==> holds(#[trigger] s[i]),
        holds(p),
    ensures
        is_ranked(insert_ranked(s, p)),
        insert_ranked(s, p).len() == s.len() + 1,
        forall|i: int|
            0 <= i < insert_ranked(s, p).len() ==> holds(#[trigger] insert_ranked(s, p)[i]),
    decreases s.len(),
{
    let out = insert_ranked(s, p);
    if s.len() == 0 {
    } else if s[0].score >= p.score {
        let tail = s.drop_first();
        let below = |q: Placement| holds(q) && q.score <= s[0].score;
        assert forall|i: int| 0 <= i < tail.len() implies below(#[trigger] tail[i]) by {
            assert(tail[i] == s[i + 1]);
        }
        assert(is_ranked(tail)) by {
            assert forall|i: int, j: int| 0 <= i < j < tail.len() implies tail[i].score
                >= tail[j].score by {
                assert(tail[i] == s[i + 1] && tail[j] == s[j + 1]);
            }
        }
        lemma_insert_ranked(tail, p, below);
        let rest = insert_ranked(tail, p);
        assert(out =~= seq![s[0]] + rest);
        assert forall|i: int, j: int| 0 <= i < j < out.len() implies out[i].score
            >= out[j].score by {
            assert(out[j] == rest[j - 1]);
            assert(below(rest[j - 1]));
            if i > 0 {
                assert(out[i] == rest[i - 1]);
            }
        }
        assert forall|i: int| 0 <= i < out.len() implies holds(#[trigger] out[i]) by {
            if i > 0 {
                assert(out[i] == rest[i - 1]);
                assert(below(rest[i - 1]));
            }
        }
    } else {
        assert(out =~= seq![p] + s);
        assert forall|i: int, j: int| 0 <= i < j < out.len() implies out[i].score
            >= out[j].score by {
            assert(out[j] == s[j - 1]);
            if i > 0 {
                assert(out[i] == s[i - 1]);
            }
        }
        assert forall|i: int| 0 <= i < out.len() implies holds(#[trigger] out[i]) by {
            if i > 0 {
                assert(out[i] == s[i - 1]);
            }
        }
    }
}

/// Ranking keeps the number of placements and whatever holds of all of them,
/// and puts them in the order of their ratings.
pub proof fn lemma_ranked(c: Seq<Placement>, holds: spec_fn(Placement) -> bool)
    requires
        forall|i: int| 0 <= i < c.len() ==> holds(#[trigger] c[i]),
    ensures
        is_ranked(ranked(c)),
        ranked(c).len() == c.len(),
        forall|i: int| 0 <= i < ranked(c).len() ==> holds(#[trigger] ranked(c)[i]),
    decreases c.len(),
{
    if c.len() > 0 {
        let front = c.drop_last();
        assert forall|i: int| 0 <= i < front.len() implies holds(#[trigger] front[i]) by {
            assert(front[i] == c[i]);
        }
        lemma_ranked(front, holds);
        lemma_insert_ranked(ranked(front), c.last(), holds);
    }
}

/// The search finds at most one placement per pair of orientation and
/// column, and each is a resting position of the shape that was asked for.
pub proof fn lemma_candidates(
    g: Grid,
    piece_type: PieceType,
    w: EvalWeights,
    use_hold: bool,
    n: int,
)
    requires
        0 <= n <= SEARCH_SIZE,
    ensures
        candidates_upto(g, piece_type, w, use_hold, n).len() <= n,
        forall|i: int|
            0 <= i < candidates_upto(g, piece_type, w, use_hold, n).len() ==> is_resting(
                g,
                #[trigger] candidates_upto(g, piece_type, w, use_hold, n)[i],
            ) && candidates_upto(g, piece_type, w, use_hold, n)[i].piece_type == piece_type
                && candidates_upto(g, piece_type, w, use_hold, n)[i].use_hold == use_hold,
    decreases n,
{
    if n > 0 {
        lemma_candidates(g, piece_type, w, use_hold, n - 1);
        lemma_candidate(
            g,
            piece_type,
            rotation_at((n - 1) / 14),
            (n - 1) % 14 + SEARCH_MIN_X,
            w,
            use_hold,
        );
    }
}

/// Once a pair of orientation and column has given a placement, the search
/// has found at least one.
pub proof fn lemma_candidates_grow(
    g: Grid,
    piece_type: PieceType,
    w: EvalWeights,
    use_hold: bool,
    k: int,
    n: int,
)
    requires
        0 <= k < n,
        candidate(g, piece_type, rotation_at(k / 14), k % 14 + SEARCH_MIN_X, w, use_hold) is Some,
    ensures
        candidates_upto(g, piece_type, w, use_hold, n).len() >= 1,
    decreases n,
{
    if n - 1 > k {
        lemma_candidates_grow(g, piece_type, w, use_hold, k, n - 1);
    }
}

/// The ranked placements of a shape are in the order of their ratings, at
/// most one per pair of orientation and column, and each is a resting
/// position of that shape on the board.
pub proof fn lemma_placements(g: Grid, piece_type: PieceType, w: EvalWeights, use_hold: bool)
    ensures
        is_ranked(placements_of(g, piece_type, w, use_hold)),
        placements_of(g, piece_type, w, use_hold).len() <= SEARCH_SIZE,
        forall|i: int|
            0 <= i < placements_of(g, piece_type, w, use_hold).len() ==> is_resting(
                g,
                #[trigger] placements_of(g, piece_type, w, use_hold)[i],
            ) && placements_of(g, piece_type, w, use_hold)[i].piece_type == piece_type
                && placements_of(g, piece_type, w, use_hold)[i].use_hold == use_hold,
{
    let c = candidates_upto(g, piece_type, w, use_hold, SEARCH_SIZE as int);
    lemma_candidates(g, piece_type, w, use_hold, SEARCH_SIZE as int);
    let holds = |p: Placement|
        is_resting(g, p) && p.piece_type == piece_type && p.use_hold == use_hold;
    lemma_ranked(c, holds);
}

/// The position of a placement in the order of the search.
pub open spec fn search_index(p: Placement) -> int {
    p.rotation.spec_index() * 14 + (p.x - SEARCH_MIN_X)
}

/// Whether no two placements of the sequence have the same orientation and column.
pub open spec fn no_two_alike(s: Seq<Placement>) -> bool {
    forall|i: int, j: int| 0 <= i < j < s.len() ==> search_index(s[i]) != search_index(s[j])
}

/// The placements that the search finds come in the order of the search,
/// each pair of orientation and column at most once.
pub proof fn lemma_candidates_ascend(
    g: Grid,
    piece_type: PieceType,
    w: EvalWeights,
    use_hold: bool,
    n: int,
)
    requires
        0 <= n <= SEARCH_SIZE,
    ensures
        forall|i: int|
            0 <= i < candidates_upto(g, piece_type, w, use_hold, n).len() ==> 0 <= search_index(
                #[trigger] candidates_upto(g, piece_type, w, use_hold, n)[i],
            ) < n,
        forall|i: int, j: int|
            0 <= i < j < candidates_upto(g, piece_type, w, use_hold, n).len() ==> search_index(
                candidates_upto(g, piece_type, w, use_hold, n)[i],
            ) < search_index(candidates_upto(g, piece_type, w, use_hold, n)[j]),
    decreases n,
{
    if n > 0 {
        lemma_candidates_ascend(g, piece_type, w, use_hold, n - 1);
        let rotation = rotation_at((n - 1) / 14);
        let x = (n - 1) % 14 + SEARCH_MIN_X;
        lemma_candidate(g, piece_type, rotation, x, w, use_hold);
        assert(rotation.spec_index() == (n - 1) / 14);
        let rest = candidates_upto(g, piece_type, w, use_hold, n - 1);
        let here = candidates_upto(g, piece_type, w, use_hold, n);
        match candidate(g, piece_type, rotation, x, w, use_hold) {
            Some(p) => {
                assert(here == rest.push(p));
                assert(search_index(p) == n - 1);
                assert forall|i: int| 0 <= i < here.len() implies 0 <= search_index(
                    #[trigger] here[i],
                ) < n by {
                    if i < rest.len() {
                        assert(here[i] == rest[i]);
                    }
                }
                assert forall|i: int, j: int| 0 <= i < j < here.len() implies search_index(
                    here[i],
                ) < search_index(here[j]) by {
                    assert(here[i] == rest[i]);
                    if j < rest.len() {
                        assert(here[j] == rest[j]);
                    }
                }
            },
            None => {
                assert(here == rest);
            },
        }
    }
}

/// Putting a placement into a sequence in which no two are alike, and none
/// is like the new one, gives a sequence in which no two are alike.
pub proof fn lemma_insert_no_two_alike(s: Seq<Placement>, p: Placement)
    requires
        no_two_alike(s),
        forall|i: int| 0 <= i < s.len() ==> search_index(#[trigger] s[i]) != search_index(p),
    ensures
        no_two_alike(insert_ranked(s, p)),
        forall|i: int|
            0 <= i < insert_ranked(s, p).len() ==> #[trigger] insert_ranked(s, p)[i] == p
                || s.contains(insert_ranked(s, p)[i]),
    decreases s.len(),
{
    let out = insert_ranked(s, p);
    if s.len() == 0 {
    } else if s[0].score >= p.score {
        let tail = s.drop_first();
        assert forall|i: int| 0 <= i < tail.len() implies search_index(#[trigger] tail[i])
            != search_index(p) by {
            assert(tail[i] == s[i + 1]);
        }
        assert(no_two_alike(tail)) by {
            assert forall|i: int, j: int| 0 <= i < j < tail.len() implies search_index(tail[i])
                != search_index(tail[j]) by {
                assert(tail[i] == s[i + 1] && tail[j] == s[j + 1]);
            }
        }
        lemma_insert_no_two_alike(tail, p);
        let rest = insert_ranked(tail, p);
        assert(out =~= seq![s[0]] + rest);
        assert forall|i: int| 0 <= i < out.len() implies #[trigger] out[i] == p || s.contains(
            out[i],
        ) by {
            if i == 0 {
                assert(s[0] == out[0]);
            } else {
                assert(out[i] == rest[i - 1]);
                if rest[i - 1] != p {
                    let k = choose|k: int| 0 <= k < tail.len() && tail[k] == rest[i - 1];
                    assert(s[k + 1] == rest[i - 1]);
                }
            }
        }
        assert forall|i: int, j: int| 0 <= i < j < out.len() implies search_index(out[i])
            != search_index(out[j]) by {
            assert(out[j] == rest[j - 1]);
            if i > 0 {
                assert(out[i] == rest[i - 1]);
            } else if rest[j - 1] != p {
                let k = choose|k: int| 0 <= k < tail.len() && tail[k] == rest[j - 1];
                assert(s[k + 1] == rest[j - 1]);
            }
        }
    } else {
        assert(out =~= seq![p] + s);
        assert forall|i: int| 0 <= i < out.len() implies #[trigger] out[i] == p || s.contains(
            out[i],
        ) by {
            if i > 0 {
                assert(out[i] == s[i - 1]);
            }
        }
        assert forall|i: int, j: int| 0 <= i < j < out.len() implies search_index(out[i])
            != search_index(out[j]) by {
            assert(out[j] == s[j - 1]);
            if i > 0 {
                assert(out[i] == s[i - 1]);
            }
        }
    }
}

/// Ranking placements that come in the order of the search gives a ranking
/// in which no two have the same orientation and column.
pub proof fn lemma_ranked_no_two_alike(c: Seq<Placement>)
    requires
        forall|i: int, j: int|
            0 <= i < j < c.len() ==> search_index(c[i]) < search_index(c[j]),
    ensures
        no_two_alike(ranked(c)),
    decreases c.len(),
{
    if c.len() > 0 {
        let front = c.drop_last();
        let last = c.last();
        assert forall|i: int, j: int| 0 <= i < j < front.len() implies search_index(front[i])
            < search_index(front[j]) by {
            assert(front[i] == c[i] && front[j] == c[j]);
        }
        lemma_ranked_no_two_alike(front);
        let earlier = |q: Placement| search_index(q) < search_index(last);
        assert forall|i: int| 0 <= i < front.len() implies earlier(#[trigger] front[i]) by {
            assert(front[i] == c[i]);
        }
        lemma_ranked(front, earlier);
        assert forall|i: int| 0 <= i < ranked(front).len() implies search_index(
            #[trigger] ranked(front)[i],
        ) != search_index(last) by {
            assert(earlier(ranked(front)[i]));
        }
        lemma_insert_no_two_alike(ranked(front), last);
    }
}

/// Among the ranked placements of a shape no two have the same orientation
/// and column, and so no two are the same position.
pub proof fn lemma_placements_differ(g: Grid, piece_type: PieceType, w: EvalWeights, use_hold: bool)
    ensures
        no_two_alike(placements_of(g, piece_type, w, use_hold)),
        forall|i: int, j: int|
            0 <= i < j < placements_of(g, piece_type, w, use_hold).len() ==> !(placements_of(
                g,
                piece_type,
                w,
                use_hold,
            )[i].x == placements_of(g, piece_type, w, use_hold)[j].x && placements_of(
                g,
                piece_type,
                w,
                use_hold,
            )[i].y == placements_of(g, piece_type, w, use_hold)[j].y && placements_of(
                g,
                piece_type,
                w,
                use_hold,
            )[i].rotation == placements_of(g, piece_type, w, use_hold)[j].rotation),
{
    lemma_candidates_ascend(g, piece_type, w, use_hold, SEARCH_SIZE as int);
    lemma_ranked_no_two_alike(candidates_upto(g, piece_type, w, use_hold, SEARCH_SIZE as int));
    let s = placements_of(g, piece_type, w, use_hold);
    assert forall|i: int, j: int| 0 <= i < j < s.len() implies !(s[i].x == s[j].x && s[i].y
        == s[j].y && s[i].rotation == s[j].rotation) by {
        assert(search_index(s[i]) != search_index(s[j]));
    }
}

/// On an empty board the search finds a placement for every shape, and the
/// one it ranks first is a resting position on that board.
pub proof fn lemma_empty_board_has_placement(piece_type: PieceType, w: EvalWeights, use_hold: bool)
    ensures
        placements_of(empty_grid(), piece_type, w, use_hold).len() >= 1,
        is_resting(empty_grid(), placements_of(empty_grid(), piece_type, w, use_hold)[0]),
        best_placement(empty_grid(), piece_type, None, w, use_hold) is Some,
{
    let g = empty_grid();
    crate::game::lemma_spawn_fits_empty(piece_type);
    assert(rotation_at(0) == RotationState::R0);
    assert(first_fit_below(g, piece_type, 3, RotationState::R0, SPAWN_Y as int) == Some(
        SPAWN_Y as int,
    ));
    assert(candidate(g, piece_type, rotation_at(5int / 14), 5int % 14 + SEARCH_MIN_X, w, use_hold)
        is Some);
    lemma_candidates_grow(g, piece_type, w, use_hold, 5, SEARCH_SIZE as int);
    lemma_placements(g, piece_type, w, use_hold);
    let c = candidates_upto(g, piece_type, w, use_hold, SEARCH_SIZE as int);
    lemma_ranked(c, |p: Placement| true);
    lemma_placements(g, piece_type, w, false);
    let c2 = candidates_upto(g, piece_type, w, false, SEARCH_SIZE as int);
    assert(candidate(g, piece_type, rotation_at(5int / 14), 5int % 14 + SEARCH_MIN_X, w, false)
        is Some);
    lemma_candidates_grow(g, piece_type, w, false, 5, SEARCH_SIZE as int);
    lemma_ranked(c2, |p: Placement| true);
}

/// Puts a placement into a ranking, behind every placement that rates at
/// least as high.
fn insert_by_score(placements: &mut Vec<Placement>, p: Placement)
    ensures
        final(placements)@ == insert_ranked(old(placements)@, p),
{
    let mut pos: usize = 0;
    while pos < placements.len() && placements[pos].score >= p.score
        invariant
            pos <= placements@.len(),
            *placements == *old(placements),
            forall|i: int| 0 <= i < pos ==> placements@[i].score >= p.score,
        decreases placements@.len() - pos,
    {
        pos += 1;
    }
    proof {
        lemma_insert_ranked_at(placements@, p, pos as int);
    }
    placements.insert(pos, p);
}

/// The placement that the search finds for an orientation and a column.
fn find_candidate(
    board: &Board,
    piece_type: PieceType,
    rotation: RotationState,
    x: i32,
    weights: &EvalWeights,
    use_hold: bool,
) -> (found: Option<Placement>)
    requires
        SEARCH_MIN_X <= x < SEARCH_END_X,
    ensures
        found == candidate(board@, piece_type, rotation, x as int, *weights, use_hold),
{
    let mut piece = Piece::new(piece_type);
    piece.x = x;
    piece.rotation = rotation;

    let mut row: i32 = piece.y;
    let mut fits = board.fits_at(&piece, x, row, rotation);
    while !fits && row > 0
        invariant
            0 <= row <= SPAWN_Y,
            piece.piece_type == piece_type,
            fits == grid_fits(board@, piece_type, x as int, row as int, rotation),
            first_fit_below(board@, piece_type, x as int, rotation, row as int) == start_row(
                board@,
                piece_type,
                x as int,
                rotation,
            ),
        decreases row,
    {
        row -= 1;
        fits = board.fits_at(&piece, x, row, rotation);
    }
    if !fits {
        assert(first_fit_below(board@, piece_type, x as int, rotation, -1) is None);
        return None;
    }
    piece.y = row;

    let mut test_piece = piece;
    hard_drop(board, &mut test_piece);
    proof {
        lemma_landing(board@, piece_type, x as int, row as int, rotation);
        if test_piece.y < row {
            assert(grid_fits(board@, piece_type, x as int, test_piece.y as int, rotation));
        }
    }
    if !board.fits_at(&test_piece, test_piece.x, test_piece.y, test_piece.rotation) {
        return None;
    }
    let mut test_board = *board;
    test_board.lock_piece(&test_piece);

    let full_lines = test_board.find_full_lines();
    proof {
        lemma_full_rows_bounds(test_board@, BOARD_HEIGHT as int);
    }
    let lines = full_lines.len() as u32;
    test_board.clear_lines(full_lines.as_slice());

    let score = evaluate(&test_board, lines, weights);
    Some(
        Placement {
            piece_type,
            rotation,
            x: test_piece.x,
            y: test_piece.y,
            score,
            use_hold,
        },
    )
}

/// All resting positions that a shape reaches by a straight drop in some
/// orientation and column, each rated by the board that its lock leaves,
/// best first.
pub fn generate_placements(
    board: &Board,
    piece_type: PieceType,
    weights: &EvalWeights,
    use_hold: bool,
) -> (placements: Vec<Placement>)
    ensures
        placements@ == placements_of(board@, piece_type, *weights, use_hold),
        is_ranked(placements@),
        no_two_alike(placements@),
        placements@.len() <= SEARCH_SIZE,
        forall|i: int|
            0 <= i < placements@.len() ==> is_resting(board@, #[trigger] placements@[i])
                && placements@[i].piece_type == piece_type && placements@[i].use_hold == use_hold,
{
    let rotations = [RotationState::R0, RotationState::R1, RotationState::R2, RotationState::R3];
    let mut placements: Vec<Placement> = Vec::new();
    let mut r: usize = 0;
    while r < 4
        invariant
            r <= 4,
            rotations[0] == RotationState::R0,
            rotations[1] == RotationState::R1,
            rotations[2] == RotationState::R2,
            rotations[3] == RotationState::R3,
            placements@ == ranked(candidates_upto(board@, piece_type, *weights, use_hold, r * 14)),
        decreases 4 - r,
    {
        let rotation = rotations[r];
        assert(rotation == rotation_at(r as int));
        let mut x: i32 = SEARCH_MIN_X;
        while x < SEARCH_END_X
            invariant
                r < 4,
                SEARCH_MIN_X <= x <= SEARCH_END_X,
                rotation == rotation_at(r as int),
                placements@ == ranked(
                    candidates_upto(board@, piece_type, *weights, use_hold, r * 14 + (x + 2)),
                ),
            decreases SEARCH_END_X - x,
        {
            let ghost n = r * 14 + (x + 2) + 1;
            assert((n - 1) / 14 == r && (n - 1) % 14 == x + 2);
            let ghost before = candidates_upto(board@, piece_type, *weights, use_hold, n - 1);
            if let Some(p) = find_candidate(board, piece_type, rotation, x, weights, use_hold) {
                insert_by_score(&mut placements, p);
                assert(before.push(p).drop_last() =~= before);
            }
            x += 1;
        }
        r += 1;
    }
    proof {
        lemma_placements(board@, piece_type, *weights, use_hold);
        lemma_placements_differ(board@, piece_type, *weights, use_hold);
    }
    placements
}

/// The best placement for the piece in play, or for the held shape if hold
/// may be used and the held shape rates strictly higher.
pub fn find_best_placement(
    board: &Board,
    current_type: PieceType,
    hold_type: Option<PieceType>,
    weights: &EvalWeights,
    use_hold: bool,
) -> (best: Option<Placement>)
    ensures
        best == best_placement(board@, current_type, hold_type, *weights, use_hold),
        best matches Some(p) ==> is_resting(board@, p),
{
    let mut best: Option<Placement> = None;

    let placements = generate_placements(board, current_type, weights, false);
    if placements.len() > 0 {
        best = Some(placements[0]);
    }
    if use_hold {
        if let Some(hold_type) = hold_type {
            let hold_placements = generate_placements(board, hold_type, weights, true);
            if hold_placements.len() > 0 {
                let p = hold_placements[0];
                let better = match best {
                    Some(b) => p.score > b.score,
                    None => true,
                };
                if better {
                    best = Some(p);
                }
            }
        }
    }
    best
}

} // verus!
