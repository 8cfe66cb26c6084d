//! A tick is decided by the grid, the scan direction, the band offset and
//! the draws for the grid's own cells, and by nothing else.

use crate::laws::shape::{
    lemma_band_pass_shape, lemma_chunks_pass_shape, lemma_row_pass_shape, lemma_rows_pass_shape,
    same_shape,
};
use crate::sandbox::grid::{cell_at, pick_at, Grid, Picks};
use crate::sandbox::interaction::interaction;
use crate::sandbox::movement::{
    band_pass, chunk_band, chunk_count, chunks_pass, movement, phase_one, row_pass, rows_pass,
    sweep, unit, Scan,
};
use crate::sandbox::sandbox::{ticked, ticked_in_one};
use vstd::prelude::*;

verus! {

/// The two sets of draws give every cell of a grid of shape `g` the same
/// number. Where the grid has no cell they may differ, as may their shapes.
pub open spec fn agree_on(g: Grid, first: Picks, second: Picks) -> bool {
    forall|x: int, y: int|
        cell_at(g, x, y) is Some ==> #[trigger] pick_at(first, x, y) == pick_at(second, x, y)
}

proof fn lemma_agree_same_shape(g: Grid, other: Grid, first: Picks, second: Picks)
    requires
        agree_on(g, first, second),
        same_shape(other, g),
    ensures
        agree_on(other, first, second),
{
    assert forall|x: int, y: int| cell_at(other, x, y) is Some implies #[trigger] pick_at(
        first,
        x,
        y,
    ) == pick_at(second, x, y) by {
        assert(cell_at(g, x, y) is Some);
    }
}

proof fn lemma_row_pass_agrees(
    g: Grid,
    first: Picks,
    second: Picks,
    scan: Scan,
    y: int,
    n: int,
)
    requires
        agree_on(g, first, second),
    ensures
        row_pass(g, first, scan, y, n) == row_pass(g, second, scan, y, n),
    decreases n,
{
    if n > 0 {
        lemma_row_pass_agrees(g, first, second, scan, y, n - 1);
        let before = row_pass(g, first, scan, y, n - 1);
        lemma_row_pass_shape(g, first, scan, y, n - 1);
        lemma_agree_same_shape(g, before, first, second);
        let x = scan.column(n - 1);
        if cell_at(before, x, y) is Some {
            assert(pick_at(first, x, y) == pick_at(second, x, y));
        }
    }
}

proof fn lemma_rows_pass_agrees(g: Grid, first: Picks, second: Picks, scan: Scan, rows: int)
    requires
        agree_on(g, first, second),
    ensures
        rows_pass(g, first, scan, rows) == rows_pass(g, second, scan, rows),
    decreases rows,
{
    if rows > 0 {
        lemma_rows_pass_agrees(g, first, second, scan, rows - 1);
        let before = rows_pass(g, first, scan, rows - 1);
        lemma_rows_pass_shape(g, first, scan, rows - 1);
        lemma_agree_same_shape(g, before, first, second);
        lemma_row_pass_agrees(before, first, second, scan, scan.height - rows, scan.width);
    }
}

proof fn lemma_chunks_pass_agrees(
    g: Grid,
    first: Picks,
    second: Picks,
    height: int,
    ltr: bool,
    start: int,
    count: int,
)
    requires
        agree_on(g, first, second),
    ensures
        chunks_pass(g, first, height, ltr, start, count) == chunks_pass(
            g,
            second,
            height,
            ltr,
            start,
            count,
        ),
    decreases count,
{
    if count > 0 {
        lemma_chunks_pass_agrees(g, first, second, height, ltr, start, count - 1);
        let before = chunks_pass(g, first, height, ltr, start, count - 1);
        lemma_chunks_pass_shape(g, first, height, ltr, start, count - 1);
        lemma_agree_same_shape(g, before, first, second);
        let from = start + 4 * unit() * (count - 1);
        match chunk_band(before.len() as int, height, ltr, from) {
            Some(scan) => lemma_rows_pass_agrees(before, first, second, scan, height),
            None => {},
        }
    }
}

proof fn lemma_movement_agrees(
    g: Grid,
    first: Picks,
    second: Picks,
    height: int,
    ltr: bool,
    offset: int,
)
    requires
        agree_on(g, first, second),
    ensures
        movement(g, first, height, ltr, offset) == movement(g, second, height, ltr, offset),
        sweep(g, first, height, ltr) == sweep(g, second, height, ltr),
{
    lemma_rows_pass_agrees(
        g,
        first,
        second,
        Scan { height, offset: 0, width: g.len() as int, ltr },
        height,
    );
    if g.len() > 4 * unit() {
        let lead_scan = Scan { height, offset: 0, width: offset, ltr };
        lemma_rows_pass_agrees(g, first, second, lead_scan, height);
        let lead = band_pass(g, first, lead_scan);
        lemma_band_pass_shape(g, first, lead_scan);
        lemma_agree_same_shape(g, lead, first, second);
        let count_one = chunk_count(g.len() as int, offset + unit());
        lemma_chunks_pass_agrees(lead, first, second, height, ltr, offset + unit(), count_one);
        let one = phase_one(g, first, height, ltr, offset);
        lemma_chunks_pass_shape(lead, first, height, ltr, offset + unit(), count_one);
        lemma_agree_same_shape(g, one, first, second);
        let next_scan = Scan { height, offset, width: 2 * unit(), ltr };
        lemma_rows_pass_agrees(one, first, second, next_scan, height);
        let next = band_pass(one, first, next_scan);
        lemma_band_pass_shape(one, first, next_scan);
        lemma_agree_same_shape(g, next, first, second);
        lemma_chunks_pass_agrees(
            next,
            first,
            second,
            height,
            ltr,
            offset + 3 * unit(),
            chunk_count(one.len() as int, offset + 3 * unit()),
        );
    }
}

/// Two ticks of the same grid with the same scan direction and band offset
/// end in the same grid, cell for cell, if their draws agree on the cells
/// of the grid: a run is reproduced by repeating its draws. This holds of
/// the tick in bands and of the tick in one band alike.
pub proof fn law_equal_draws_give_equal_grids(
    g: Grid,
    first: Picks,
    second: Picks,
    height: int,
    ltr: bool,
    offset: int,
)
    requires
        agree_on(g, first, second),
    ensures
        ticked(g, first, height, ltr, offset) == ticked(g, second, height, ltr, offset),
        ticked_in_one(g, first, height, ltr) == ticked_in_one(g, second, height, ltr),
{
    let met = interaction(g, height);
    assert(same_shape(met, g));
    lemma_agree_same_shape(g, met, first, second);
    lemma_movement_agrees(met, first, second, height, ltr, offset);
}

} // verus!
