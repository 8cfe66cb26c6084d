//! A cell travels one column a tick at most, so a band reaches no further
//! than the columns next to it; and when a movement pass is over, no cell
//! is flagged.

use crate::laws::shape::{lemma_row_pass_shape, lemma_rows_pass_shape};
use crate::sandbox::grid::{adjacent, cell_at, neighbour, pick_at, Grid, Picks};
use crate::sandbox::movement::{
    band_pass, destination, flagged, flagged_unless_void, movement, row_pass, rows_pass, step,
    sweep, Scan,
};
use vstd::prelude::*;

verus! {

/// Column `x` lies more than one column away from the band of `scan`.
pub open spec fn out_of_reach(scan: Scan, x: int) -> bool {
    x < scan.offset - 1 || x > scan.offset + scan.width
}

proof fn lemma_step_is_local(g: Grid, height: int, cx: int, cy: int, pick: int, x: int)
    requires
        0 <= x < g.len(),
        x < cx - 1 || x > cx + 1,
    ensures
        step(g, height, cx, cy, pick)[x] == g[x],
{
    match destination(g, height, cx, cy, pick) {
        Some(to) => {
            let dir = g[cx][cy].pixel.move_choice(adjacent(g, height, cx, cy), pick)->0;
            assert(neighbour(g.len() as int, height, cx, cy, dir) == Some(to));
            assert(cx - 1 <= to.0 <= cx + 1);
            let a = flagged(g, cx, cy);
            assert(a[x] == g[x]);
            let b = flagged_unless_void(a, to.0, to.1);
            assert(b[x] == a[x]);
        },
        None => {},
    }
}

proof fn lemma_row_pass_is_local(g: Grid, picks: Picks, scan: Scan, y: int, n: int, x: int)
    requires
        0 <= x < g.len(),
        out_of_reach(scan, x),
        n <= scan.width,
    ensures
        row_pass(g, picks, scan, y, n)[x] == g[x],
    decreases n,
{
    if n > 0 {
        lemma_row_pass_is_local(g, picks, scan, y, n - 1, x);
        let before = row_pass(g, picks, scan, y, n - 1);
        lemma_row_pass_shape(g, picks, scan, y, n - 1);
        let cx = scan.column(n - 1);
        lemma_step_is_local(before, scan.height, cx, y, pick_at(picks, cx, y), x);
    }
}

proof fn lemma_rows_pass_is_local(g: Grid, picks: Picks, scan: Scan, rows: int, x: int)
    requires
        0 <= x < g.len(),
        out_of_reach(scan, x),
    ensures
        rows_pass(g, picks, scan, rows)[x] == g[x],
    decreases rows,
{
    if rows > 0 {
        lemma_rows_pass_is_local(g, picks, scan, rows - 1, x);
        let before = rows_pass(g, picks, scan, rows - 1);
        lemma_rows_pass_shape(g, picks, scan, rows - 1);
        lemma_row_pass_is_local(before, picks, scan, scan.height - rows, scan.width, x);
    }
}

/// A pass over a band leaves every column as it was that lies more than
/// one column from the band. Bands that are two columns or more apart can
/// therefore be resolved side by side: neither reads or writes a column
/// that the other writes.
pub proof fn law_a_band_reaches_one_column_far(g: Grid, picks: Picks, scan: Scan, x: int)
    requires
        0 <= x < g.len(),
        out_of_reach(scan, x),
    ensures
        band_pass(g, picks, scan)[x] == g[x],
{
    lemma_rows_pass_is_local(g, picks, scan, scan.height, x);
}

/// After a movement pass no cell is flagged as moved: the flag lives within
/// one pass and never reaches the next tick.
pub proof fn law_no_flag_outlives_the_pass(
    g: Grid,
    picks: Picks,
    height: int,
    ltr: bool,
    offset: int,
    x: int,
    y: int,
)
    ensures
        cell_at(movement(g, picks, height, ltr, offset), x, y) matches Some(cell) ==> !cell.is_moved,
        cell_at(sweep(g, picks, height, ltr), x, y) matches Some(cell) ==> !cell.is_moved,
{
}

} // verus!
