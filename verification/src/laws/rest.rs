//! A grid at rest: one that no visit changes.

use crate::sandbox::grid::{pick_at, Grid, Picks};
use crate::sandbox::movement::{
    chunk_band, chunk_count, chunk_pass, chunks_pass, cleared, movement, row_pass, rows_pass, step,
    sweep, unit, Scan,
};
use vstd::prelude::*;

verus! {

/// No visit changes the grid: every cell is empty, has moved, or has
/// nowhere to go.
pub open spec fn at_rest(g: Grid, height: int) -> bool {
    forall|x: int, y: int, pick: int| #[trigger] step(g, height, x, y, pick) == g
}

pub(crate) proof fn lemma_row_pass_at_rest(g: Grid, picks: Picks, scan: Scan, y: int, n: int)
    requires
        at_rest(g, scan.height),
    ensures
        row_pass(g, picks, scan, y, n) == g,
    decreases n,
{
    if n > 0 {
        lemma_row_pass_at_rest(g, picks, scan, y, n - 1);
        let x = scan.column(n - 1);
        assert(step(g, scan.height, x, y, pick_at(picks, x, y)) == g);
    }
}

pub(crate) proof fn lemma_rows_pass_at_rest(g: Grid, picks: Picks, scan: Scan, rows: int)
    requires
        at_rest(g, scan.height),
    ensures
        rows_pass(g, picks, scan, rows) == g,
    decreases rows,
{
    if rows > 0 {
        lemma_rows_pass_at_rest(g, picks, scan, rows - 1);
        lemma_row_pass_at_rest(g, picks, scan, scan.height - rows, scan.width);
    }
}

proof fn lemma_chunk_pass_at_rest(g: Grid, picks: Picks, height: int, ltr: bool, start: int)
    requires
        at_rest(g, height),
    ensures
        chunk_pass(g, picks, height, ltr, start) == g,
{
    match chunk_band(g.len() as int, height, ltr, start) {
        Some(scan) => lemma_rows_pass_at_rest(g, picks, scan, height),
        None => {},
    }
}

proof fn lemma_chunks_pass_at_rest(
    g: Grid,
    picks: Picks,
    height: int,
    ltr: bool,
    first: int,
    count: int,
)
    requires
        at_rest(g, height),
    ensures
        chunks_pass(g, picks, height, ltr, first, count) == g,
    decreases count,
{
    if count > 0 {
        lemma_chunks_pass_at_rest(g, picks, height, ltr, first, count - 1);
        lemma_chunk_pass_at_rest(g, picks, height, ltr, first + 4 * unit() * (count - 1));
    }
}

/// The movement pass does nothing to a grid at rest but clear its flags.
pub(crate) proof fn lemma_movement_at_rest(
    g: Grid,
    picks: Picks,
    height: int,
    ltr: bool,
    offset: int,
)
    requires
        at_rest(g, height),
    ensures
        movement(g, picks, height, ltr, offset) == cleared(g),
        sweep(g, picks, height, ltr) == cleared(g),
{
    let whole = Scan { height, offset: 0, width: g.len() as int, ltr };
    lemma_rows_pass_at_rest(g, picks, whole, height);
    if g.len() > 4 * unit() {
        lemma_rows_pass_at_rest(g, picks, Scan { height, offset: 0, width: offset, ltr }, height);
        lemma_chunks_pass_at_rest(
            g,
            picks,
            height,
            ltr,
            offset + unit(),
            chunk_count(g.len() as int, offset + unit()),
        );
        lemma_rows_pass_at_rest(
            g,
            picks,
            Scan { height, offset, width: 2 * unit(), ltr },
            height,
        );
        lemma_chunks_pass_at_rest(
            g,
            picks,
            height,
            ltr,
            offset + 3 * unit(),
            chunk_count(g.len() as int, offset + 3 * unit()),
        );
    }
}

} // verus!
