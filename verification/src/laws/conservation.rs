//! Movement conserves occupancy: cells trade places, none is lost or made.

use crate::pixel::PixelFundamental;
use crate::sandbox::grid::{cell_at, pick_at, swapped, with_cell, Grid, Picks};
use crate::sandbox::movement::{
    band_pass, chunk_band, chunk_count, chunks_pass, cleared, destination, flagged,
    flagged_unless_void, moved, movement, phase_one, phase_two, row_pass, rows_pass, sweep, unit,
    Scan,
};
use crate::sandbox::PixelContainer;
use vstd::prelude::*;

verus! {

/// The cell holds a material other than the void.
pub open spec fn is_occupied(cell: PixelContainer) -> bool {
    !cell.pixel.spec_pixel_type().spec_is_void()
}

/// 1 for an occupied cell, 0 for an empty one.
pub open spec fn weight(cell: PixelContainer) -> int {
    if is_occupied(cell) {
        1
    } else {
        0
    }
}

/// The number of occupied cells in a column.
pub open spec fn column_occupancy(column: Seq<PixelContainer>) -> int
    decreases column.len(),
{
    if column.len() == 0 {
        0
    } else {
        column_occupancy(column.drop_last()) + weight(column.last())
    }
}

/// The number of occupied cells in a grid.
pub open spec fn occupancy(g: Grid) -> int
    decreases g.len(),
{
    if g.len() == 0 {
        0
    } else {
        occupancy(g.drop_last()) + column_occupancy(g.last())
    }
}

proof fn lemma_column_update(column: Seq<PixelContainer>, y: int, cell: PixelContainer)
    requires
        0 <= y < column.len(),
    ensures
        column_occupancy(column.update(y, cell)) == column_occupancy(column) - weight(column[y])
            + weight(cell),
    decreases column.len(),
{
    let after = column.update(y, cell);
    if y == column.len() - 1 {
        assert(after.drop_last() =~= column.drop_last());
    } else {
        assert(after.drop_last() =~= column.drop_last().update(y, cell));
        lemma_column_update(column.drop_last(), y, cell);
    }
}

proof fn lemma_grid_update(g: Grid, x: int, column: Seq<PixelContainer>)
    requires
        0 <= x < g.len(),
    ensures
        occupancy(g.update(x, column)) == occupancy(g) - column_occupancy(g[x]) + column_occupancy(
            column,
        ),
    decreases g.len(),
{
    let after = g.update(x, column);
    if x == g.len() - 1 {
        assert(after.drop_last() =~= g.drop_last());
    } else {
        assert(after.drop_last() =~= g.drop_last().update(x, column));
        lemma_grid_update(g.drop_last(), x, column);
    }
}

proof fn lemma_with_cell(g: Grid, x: int, y: int, cell: PixelContainer)
    ensures
        occupancy(with_cell(g, x, y, cell)) == match cell_at(g, x, y) {
            Some(old) => occupancy(g) - weight(old) + weight(cell),
            None => occupancy(g),
        },
{
    if cell_at(g, x, y) is Some {
        lemma_column_update(g[x], y, cell);
        lemma_grid_update(g, x, g[x].update(y, cell));
    }
}

proof fn lemma_swapped(g: Grid, a: (int, int), b: (int, int))
    ensures
        occupancy(swapped(g, a, b)) == occupancy(g),
{
    match (cell_at(g, a.0, a.1), cell_at(g, b.0, b.1)) {
        (Some(first), Some(second)) => {
            let half = with_cell(g, a.0, a.1, second);
            lemma_with_cell(g, a.0, a.1, second);
            assert(cell_at(half, b.0, b.1) == Some(second));
            lemma_with_cell(half, b.0, b.1, first);
        },
        _ => {},
    }
}

proof fn lemma_flagged(g: Grid, x: int, y: int)
    ensures
        occupancy(flagged(g, x, y)) == occupancy(g),
        occupancy(flagged_unless_void(g, x, y)) == occupancy(g),
{
    match cell_at(g, x, y) {
        Some(cell) => {
            lemma_with_cell(g, x, y, PixelContainer { pixel: cell.pixel, is_moved: true });
        },
        None => {},
    }
}

/// One move conserves occupancy.
proof fn lemma_moved(g: Grid, from: (int, int), to: (int, int))
    ensures
        occupancy(moved(g, from, to)) == occupancy(g),
{
    let a = flagged(g, from.0, from.1);
    lemma_flagged(g, from.0, from.1);
    let b = flagged_unless_void(a, to.0, to.1);
    lemma_flagged(a, to.0, to.1);
    lemma_swapped(b, from, to);
}

proof fn lemma_row_pass(g: Grid, picks: Picks, scan: Scan, y: int, n: int)
    ensures
        occupancy(row_pass(g, picks, scan, y, n)) == occupancy(g),
    decreases n,
{
    if n > 0 {
        lemma_row_pass(g, picks, scan, y, n - 1);
        let before = row_pass(g, picks, scan, y, n - 1);
        let x = scan.column(n - 1);
        match destination(before, scan.height, x, y, pick_at(picks, x, y)) {
            Some(to) => lemma_moved(before, (x, y), to),
            None => {},
        }
    }
}

proof fn lemma_rows_pass(g: Grid, picks: Picks, scan: Scan, rows: int)
    ensures
        occupancy(rows_pass(g, picks, scan, rows)) == occupancy(g),
    decreases rows,
{
    if rows > 0 {
        lemma_rows_pass(g, picks, scan, rows - 1);
        lemma_row_pass(
            rows_pass(g, picks, scan, rows - 1),
            picks,
            scan,
            scan.height - rows,
            scan.width,
        );
    }
}

/// A pass over one band conserves occupancy.
proof fn lemma_band_pass(g: Grid, picks: Picks, scan: Scan)
    ensures
        occupancy(band_pass(g, picks, scan)) == occupancy(g),
{
    lemma_rows_pass(g, picks, scan, scan.height);
}

/// The passes over any number of bands conserve occupancy.
proof fn lemma_chunks_pass(
    g: Grid,
    picks: Picks,
    height: int,
    ltr: bool,
    first: int,
    count: int,
)
    ensures
        occupancy(chunks_pass(g, picks, height, ltr, first, count)) == occupancy(g),
    decreases count,
{
    if count > 0 {
        lemma_chunks_pass(g, picks, height, ltr, first, count - 1);
        let before = chunks_pass(g, picks, height, ltr, first, count - 1);
        let start = first + 4 * unit() * (count - 1);
        match chunk_band(before.len() as int, height, ltr, start) {
            Some(scan) => lemma_band_pass(before, picks, scan),
            None => {},
        }
    }
}

proof fn lemma_same_pixels_column(a: Seq<PixelContainer>, b: Seq<PixelContainer>)
    requires
        a.len() == b.len(),
        forall|y: int| 0 <= y < a.len() ==> (#[trigger] a[y]).pixel == b[y].pixel,
    ensures
        column_occupancy(a) == column_occupancy(b),
    decreases a.len(),
{
    if a.len() > 0 {
        assert(a.last().pixel == b.last().pixel);
        assert forall|y: int| 0 <= y < a.drop_last().len() implies (#[trigger] a.drop_last()[y]).pixel
            == b.drop_last()[y].pixel by {
            assert(a.drop_last()[y] == a[y]);
        }
        lemma_same_pixels_column(a.drop_last(), b.drop_last());
    }
}

proof fn lemma_cleared(g: Grid)
    ensures
        occupancy(cleared(g)) == occupancy(g),
    decreases g.len(),
{
    if g.len() > 0 {
        assert(cleared(g).drop_last() =~~= cleared(g.drop_last()));
        lemma_cleared(g.drop_last());
        lemma_same_pixels_column(cleared(g).last(), g.last());
    }
}

/// The number of occupied cells is the same before and after the movement
/// pass, whatever the grid, the draws and the band offset: whether the pass
/// goes in one band or in many, in one phase or in two, all it does is
/// swap.
pub proof fn law_movement_conserves_occupancy(
    g: Grid,
    picks: Picks,
    height: int,
    ltr: bool,
    offset: int,
)
    ensures
        occupancy(movement(g, picks, height, ltr, offset)) == occupancy(g),
        occupancy(sweep(g, picks, height, ltr)) == occupancy(g),
{
    let whole = Scan { height, offset: 0, width: g.len() as int, ltr };
    lemma_band_pass(g, picks, whole);
    lemma_cleared(band_pass(g, picks, whole));
    if g.len() > 4 * unit() {
        let lead = band_pass(g, picks, Scan { height, offset: 0, width: offset, ltr });
        lemma_band_pass(g, picks, Scan { height, offset: 0, width: offset, ltr });
        lemma_chunks_pass(
            lead,
            picks,
            height,
            ltr,
            offset + unit(),
            chunk_count(g.len() as int, offset + unit()),
        );
        let one = phase_one(g, picks, height, ltr, offset);
        let second = band_pass(one, picks, Scan { height, offset, width: 2 * unit(), ltr });
        lemma_band_pass(one, picks, Scan { height, offset, width: 2 * unit(), ltr });
        lemma_chunks_pass(
            second,
            picks,
            height,
            ltr,
            offset + 3 * unit(),
            chunk_count(one.len() as int, offset + 3 * unit()),
        );
        lemma_cleared(phase_two(one, picks, height, ltr, offset));
    }
}

} // verus!
