//! No pass changes the shape of the grid.

use crate::sandbox::grid::{pick_at, swapped, Grid, Picks};
use crate::sandbox::interaction::interaction;
use crate::sandbox::movement::{
    band_pass, chunk_band, chunk_count, chunk_pass, chunks_pass, destination, flagged,
    flagged_unless_void, moved, movement, phase_one, row_pass, rows_pass, step, unit, Scan,
};
use crate::sandbox::sandbox::{ticked, ticked_in_one};
use vstd::prelude::*;

verus! {

/// Two grids have the same number of columns, and each column the same
/// number of cells.
pub open spec fn same_shape(a: Grid, b: Grid) -> bool {
    &&& a.len() == b.len()
    &&& forall|x: int| 0 <= x < a.len() ==> (#[trigger] a[x]).len() == b[x].len()
}

proof fn lemma_moved_shape(g: Grid, from: (int, int), to: (int, int))
    ensures
        same_shape(moved(g, from, to), g),
{
    let a = flagged(g, from.0, from.1);
    let b = flagged_unless_void(a, to.0, to.1);
    assert(same_shape(a, g));
    assert(same_shape(b, a));
    assert(same_shape(swapped(b, from, to), b));
}

proof fn lemma_step_shape(g: Grid, height: int, x: int, y: int, pick: int)
    ensures
        same_shape(step(g, height, x, y, pick), g),
{
    match destination(g, height, x, y, pick) {
        Some(to) => lemma_moved_shape(g, (x, y), to),
        None => {},
    }
}

pub(crate) proof fn lemma_row_pass_shape(g: Grid, picks: Picks, scan: Scan, y: int, n: int)
    ensures
        same_shape(row_pass(g, picks, scan, y, n), g),
    decreases n,
{
    if n > 0 {
        lemma_row_pass_shape(g, picks, scan, y, n - 1);
        let before = row_pass(g, picks, scan, y, n - 1);
        let x = scan.column(n - 1);
        lemma_step_shape(before, scan.height, x, y, pick_at(picks, x, y));
    }
}

pub(crate) proof fn lemma_rows_pass_shape(g: Grid, picks: Picks, scan: Scan, rows: int)
    ensures
        same_shape(rows_pass(g, picks, scan, rows), g),
    decreases rows,
{
    if rows > 0 {
        lemma_rows_pass_shape(g, picks, scan, rows - 1);
        lemma_row_pass_shape(
            rows_pass(g, picks, scan, rows - 1),
            picks,
            scan,
            scan.height - rows,
            scan.width,
        );
    }
}

/// A pass over a band leaves the shape of the grid as it was.
pub(crate) proof fn lemma_band_pass_shape(g: Grid, picks: Picks, scan: Scan)
    ensures
        same_shape(band_pass(g, picks, scan), g),
{
    lemma_rows_pass_shape(g, picks, scan, scan.height);
}

proof fn lemma_chunk_pass_shape(g: Grid, picks: Picks, height: int, ltr: bool, start: int)
    ensures
        same_shape(chunk_pass(g, picks, height, ltr, start), g),
{
    match chunk_band(g.len() as int, height, ltr, start) {
        Some(scan) => lemma_band_pass_shape(g, picks, scan),
        None => {},
    }
}

pub(crate) proof fn lemma_chunks_pass_shape(
    g: Grid,
    picks: Picks,
    height: int,
    ltr: bool,
    first: int,
    count: int,
)
    ensures
        same_shape(chunks_pass(g, picks, height, ltr, first, count), g),
    decreases count,
{
    if count > 0 {
        lemma_chunks_pass_shape(g, picks, height, ltr, first, count - 1);
        lemma_chunk_pass_shape(
            chunks_pass(g, picks, height, ltr, first, count - 1),
            picks,
            height,
            ltr,
            first + 4 * unit() * (count - 1),
        );
    }
}

/// The movement pass leaves the shape of the grid as it was.
proof fn lemma_movement_shape(g: Grid, picks: Picks, height: int, ltr: bool, offset: int)
    ensures
        same_shape(movement(g, picks, height, ltr, offset), g),
{
    if g.len() <= 4 * unit() {
        lemma_band_pass_shape(g, picks, Scan { height, offset: 0, width: g.len() as int, ltr });
    } else {
        let lead = band_pass(g, picks, Scan { height, offset: 0, width: offset, ltr });
        lemma_band_pass_shape(g, picks, Scan { height, offset: 0, width: offset, ltr });
        lemma_chunks_pass_shape(
            lead,
            picks,
            height,
            ltr,
            offset + unit(),
            chunk_count(g.len() as int, offset + unit()),
        );
        let one = phase_one(g, picks, height, ltr, offset);
        lemma_band_pass_shape(one, picks, Scan { height, offset, width: 2 * unit(), ltr });
        lemma_chunks_pass_shape(
            band_pass(one, picks, Scan { height, offset, width: 2 * unit(), ltr }),
            picks,
            height,
            ltr,
            offset + 3 * unit(),
            chunk_count(one.len() as int, offset + 3 * unit()),
        );
    }
}

/// A tick leaves the shape of the grid as it was, whether its movement pass
/// goes in bands or in one: the grid is resized by nothing but a resize.
pub proof fn law_tick_keeps_shape(g: Grid, picks: Picks, height: int, ltr: bool, offset: int)
    ensures
        same_shape(ticked(g, picks, height, ltr, offset), g),
        same_shape(ticked_in_one(g, picks, height, ltr), g),
{
    let met = interaction(g, height);
    lemma_movement_shape(met, picks, height, ltr, offset);
    lemma_band_pass_shape(met, picks, Scan { height, offset: 0, width: met.len() as int, ltr });
}

} // verus!
