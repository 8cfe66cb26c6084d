//! No cell moves more than once within a pass.

use crate::pixel::{Direction, Pixel};
use crate::sandbox::grid::{adjacent, cell_at, neighbour, pick_at, Grid, Picks};
use crate::sandbox::movement::{
    band_pass, destination, flagged, flagged_unless_void, row_pass, rows_pass, step, Scan,
};
use crate::sandbox::AdjacentPixels;
use vstd::prelude::*;

verus! {

/// The grid has a cell at `(x, y)`, and it is flagged as moved.
pub open spec fn has_moved(g: Grid, x: int, y: int) -> bool {
    cell_at(g, x, y) matches Some(cell) && cell.is_moved
}

/// A visit flags the cell that it moves, where that cell arrives.
pub proof fn law_a_move_flags_the_mover(g: Grid, height: int, x: int, y: int, pick: int)
    ensures
        match destination(g, height, x, y, pick) {
            Some(to) => has_moved(step(g, height, x, y, pick), to.0, to.1) && cell_at(
                step(g, height, x, y, pick),
                to.0,
                to.1,
            )->0.pixel == g[x][y].pixel,
            None => step(g, height, x, y, pick) == g,
        },
{
    match destination(g, height, x, y, pick) {
        Some(to) => {
            let dir = g[x][y].pixel.move_choice(adjacent(g, height, x, y), pick)->0;
            assert(neighbour(g.len() as int, height, x, y, dir) == Some(to));
            lemma_first_legal_is_legal(g, height, x, y, pick);
            assert(adjacent(g, height, x, y).spec_get(dir) == cell_at(g, to.0, to.1));
            assert(cell_at(g, to.0, to.1) is Some);
            assert(to != (x, y));
            let a = flagged(g, x, y);
            assert(cell_at(a, x, y)->0.is_moved);
            let b = flagged_unless_void(a, to.0, to.1);
            assert(cell_at(b, x, y) == cell_at(a, x, y));
            assert(cell_at(b, to.0, to.1) is Some);
        },
        None => {},
    }
}

proof fn lemma_step_spares_the_moved(
    g: Grid,
    height: int,
    cx: int,
    cy: int,
    pick: int,
    x: int,
    y: int,
)
    requires
        has_moved(g, x, y),
    ensures
        step(g, height, cx, cy, pick)[x][y] == g[x][y],
        has_moved(step(g, height, cx, cy, pick), x, y),
{
    match destination(g, height, cx, cy, pick) {
        Some(to) => {
            let dir = g[cx][cy].pixel.move_choice(adjacent(g, height, cx, cy), pick)->0;
            assert(neighbour(g.len() as int, height, cx, cy, dir) == Some(to));
            assert(g[cx][cy].pixel.spec_can_move_to_dir(adjacent(g, height, cx, cy), dir)) by {
                lemma_first_legal_is_legal(g, height, cx, cy, pick);
            }
            assert(adjacent(g, height, cx, cy).spec_get(dir) == cell_at(g, to.0, to.1));
            assert(!g[to.0][to.1].is_moved);
            assert(to != (x, y));
            assert((cx, cy) != (x, y));
            let a = flagged(g, cx, cy);
            assert(a[x][y] == g[x][y]);
            let b = flagged_unless_void(a, to.0, to.1);
            assert(b[x][y] == g[x][y]);
        },
        None => {},
    }
}

proof fn lemma_first_legal_is_legal(g: Grid, height: int, x: int, y: int, pick: int)
    requires
        destination(g, height, x, y, pick) is Some,
    ensures
        g[x][y].pixel.spec_can_move_to_dir(
            adjacent(g, height, x, y),
            g[x][y].pixel.move_choice(adjacent(g, height, x, y), pick)->0,
        ),
{
    let pixel = g[x][y].pixel;
    let around = adjacent(g, height, x, y);
    let dirs = pixel.candidates(pick);
    lemma_first_legal_from(pixel, around, dirs, 0);
}

proof fn lemma_first_legal_from(
    pixel: Pixel,
    around: AdjacentPixels,
    dirs: Seq<Direction>,
    from: int,
)
    ensures
        pixel.first_legal(around, dirs, from) matches Some(dir) ==> pixel.spec_can_move_to_dir(
            around,
            dir,
        ),
    decreases dirs.len() - from,
{
    if 0 <= from < dirs.len() && !pixel.spec_can_move_to_dir(around, dirs[from]) {
        lemma_first_legal_from(pixel, around, dirs, from + 1);
    }
}

proof fn lemma_row_pass_spares_the_moved(
    g: Grid,
    picks: Picks,
    scan: Scan,
    row: int,
    n: int,
    x: int,
    y: int,
)
    requires
        has_moved(g, x, y),
    ensures
        row_pass(g, picks, scan, row, n)[x][y] == g[x][y],
        has_moved(row_pass(g, picks, scan, row, n), x, y),
    decreases n,
{
    if n > 0 {
        lemma_row_pass_spares_the_moved(g, picks, scan, row, n - 1, x, y);
        let before = row_pass(g, picks, scan, row, n - 1);
        let cx = scan.column(n - 1);
        lemma_step_spares_the_moved(before, scan.height, cx, row, pick_at(picks, cx, row), x, y);
    }
}

proof fn lemma_rows_pass_spares_the_moved(
    g: Grid,
    picks: Picks,
    scan: Scan,
    rows: int,
    x: int,
    y: int,
)
    requires
        has_moved(g, x, y),
    ensures
        rows_pass(g, picks, scan, rows)[x][y] == g[x][y],
        has_moved(rows_pass(g, picks, scan, rows), x, y),
    decreases rows,
{
    if rows > 0 {
        lemma_rows_pass_spares_the_moved(g, picks, scan, rows - 1, x, y);
        let before = rows_pass(g, picks, scan, rows - 1);
        lemma_row_pass_spares_the_moved(before, picks, scan, scan.height - rows, scan.width, x, y);
    }
}

/// A cell that is flagged as moved stays where it is, and as it is, for the
/// rest of the pass: it is neither moved again nor moved into. With the
/// law that a move flags the mover, no cell moves twice in one pass.
pub proof fn law_a_moved_cell_stays(g: Grid, picks: Picks, scan: Scan, x: int, y: int)
    requires
        has_moved(g, x, y),
    ensures
        band_pass(g, picks, scan)[x][y] == g[x][y],
{
    lemma_rows_pass_spares_the_moved(g, picks, scan, scan.height, x, y);
}

} // verus!
