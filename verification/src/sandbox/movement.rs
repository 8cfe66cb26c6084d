//! What one movement pass does to a grid, as a mathematical function.
//!
//! A pass visits the cells of a band of columns row by row from the bottom
//! up, so that what lies lower settles before anything falls into the space
//! it leaves. Each visit may swap the cell with one neighbour.

use crate::pixel::PixelFundamental;
use crate::sandbox::grid::{
    adjacent, cell_at, grid_of, neighbour, pick_at, swap_cells, swapped, with_cell, Grid, Picks,
};
use crate::sandbox::{Coordinate, PixelContainer};
use vstd::prelude::*;

verus! {

/// Which cells a pass visits and in what order: the columns
/// `offset .. offset + width` of every row, rows from `height - 1` up to 0,
/// columns ascending if `ltr` and descending if not.
pub struct Scan {
    pub height: int,
    pub offset: int,
    pub width: int,
    pub ltr: bool,
}

impl Scan {
    /// The column that is visited `i`-th within a row.
    pub open spec fn column(self, i: int) -> int {
        if self.ltr {
            self.offset + i
        } else {
            self.offset + self.width - 1 - i
        }
    }
}

/// The grid with the cell at `(x, y)` flagged as moved.
pub open spec fn flagged(g: Grid, x: int, y: int) -> Grid {
    match cell_at(g, x, y) {
        Some(cell) => with_cell(g, x, y, PixelContainer { pixel: cell.pixel, is_moved: true }),
        None => g,
    }
}

/// The grid with the cell at `(x, y)` flagged as moved unless it is empty:
/// the void is never marked for being a destination.
pub open spec fn flagged_unless_void(g: Grid, x: int, y: int) -> Grid {
    match cell_at(g, x, y) {
        Some(cell) => if cell.pixel.spec_pixel_type().spec_is_void() {
            g
        } else {
            flagged(g, x, y)
        },
        None => g,
    }
}

/// The grid after the cell at `from` has moved to `to`: the source is
/// flagged, the destination is flagged unless empty, and the two trade
/// places.
pub open spec fn moved(g: Grid, from: (int, int), to: (int, int)) -> Grid {
    swapped(flagged_unless_void(flagged(g, from.0, from.1), to.0, to.1), from, to)
}

/// Where the cell at `(x, y)` goes when it is visited with the draw `pick`:
/// nowhere if it is missing, empty or has already moved, else to the
/// neighbour that its material chooses.
pub open spec fn destination(g: Grid, height: int, x: int, y: int, pick: int) -> Option<
    (int, int),
> {
    match cell_at(g, x, y) {
        Some(cell) => if cell.pixel.spec_pixel_type().spec_is_void() || cell.is_moved {
            None
        } else {
            match cell.pixel.move_choice(adjacent(g, height, x, y), pick) {
                Some(dir) => neighbour(g.len() as int, height, x, y, dir),
                None => None,
            }
        },
        None => None,
    }
}

/// The grid after the cell at `(x, y)` has been visited with the draw
/// `pick`.
pub open spec fn step(g: Grid, height: int, x: int, y: int, pick: int) -> Grid {
    match destination(g, height, x, y, pick) {
        Some(to) => moved(g, (x, y), to),
        None => g,
    }
}

/// The grid after the first `n` cells of row `y` have been visited.
pub open spec fn row_pass(g: Grid, picks: Picks, scan: Scan, y: int, n: int) -> Grid
    decreases n,
{
    if n <= 0 {
        g
    } else {
        let x = scan.column(n - 1);
        step(row_pass(g, picks, scan, y, n - 1), scan.height, x, y, pick_at(picks, x, y))
    }
}

/// The grid after the lowest `rows` rows have been visited, bottom row
/// first.
pub open spec fn rows_pass(g: Grid, picks: Picks, scan: Scan, rows: int) -> Grid
    decreases rows,
{
    if rows <= 0 {
        g
    } else {
        row_pass(
            rows_pass(g, picks, scan, rows - 1),
            picks,
            scan,
            scan.height - rows,
            scan.width,
        )
    }
}

/// The grid after one whole pass over the band that `scan` describes.
pub open spec fn band_pass(g: Grid, picks: Picks, scan: Scan) -> Grid {
    rows_pass(g, picks, scan, scan.height)
}

/// The grid with every moved flag cleared.
pub open spec fn cleared(g: Grid) -> Grid {
    Seq::new(
        g.len(),
        |x: int|
            Seq::new(
                g[x].len(),
                |y: int| PixelContainer { pixel: g[x][y].pixel, is_moved: false },
            ),
    )
}

/// The unit of the band layout, in columns. It must be at least twice the
/// furthest that a cell can travel in one tick.
pub const VIRTUAL_COLUMNIZED_WIDTH: usize = 5;

/// The smaller of two integers.
pub open spec fn least(a: int, b: int) -> int {
    if a <= b {
        a
    } else {
        b
    }
}

/// The unit as an integer.
pub open spec fn unit() -> int {
    VIRTUAL_COLUMNIZED_WIDTH as int
}

/// The band of the chunk that starts at column `start` of `total` columns.
/// A chunk is four units wide, or what the grid has of them; its band is
/// its two middle units, or what the chunk has of them, and a chunk of one
/// unit or less has none.
pub open spec fn chunk_band(total: int, height: int, ltr: bool, start: int) -> Option<Scan> {
    let len = least(4 * unit(), total - start);
    if len > unit() {
        Some(Scan { height, offset: start + unit(), width: least(2 * unit(), len - unit()), ltr })
    } else {
        None
    }
}

/// The grid after the band of the chunk that starts at column `start` has
/// been resolved.
pub open spec fn chunk_pass(g: Grid, picks: Picks, height: int, ltr: bool, start: int) -> Grid {
    match chunk_band(g.len() as int, height, ltr, start) {
        Some(scan) => band_pass(g, picks, scan),
        None => g,
    }
}

/// The grid after the bands of the first `count` chunks have been resolved,
/// left to right. The first chunk starts at column `first`, each further
/// one four units behind the one before.
pub open spec fn chunks_pass(
    g: Grid,
    picks: Picks,
    height: int,
    ltr: bool,
    first: int,
    count: int,
) -> Grid
    decreases count,
{
    if count <= 0 {
        g
    } else {
        chunk_pass(
            chunks_pass(g, picks, height, ltr, first, count - 1),
            picks,
            height,
            ltr,
            first + 4 * unit() * (count - 1),
        )
    }
}

/// The number of chunks that the columns from `first` up to `width` fall
/// into.
pub open spec fn chunk_count(width: int, first: int) -> int {
    if first >= width {
        0
    } else {
        (width - first - 1) / (4 * unit()) + 1
    }
}

/// The grid after the first phase, whose seams `offset` places: a leading
/// band of `offset` columns, then the bands of the chunks that start one
/// unit behind it.
pub open spec fn phase_one(g: Grid, picks: Picks, height: int, ltr: bool, offset: int) -> Grid {
    chunks_pass(
        band_pass(g, picks, Scan { height, offset: 0, width: offset, ltr }),
        picks,
        height,
        ltr,
        offset + unit(),
        chunk_count(g.len() as int, offset + unit()),
    )
}

/// The grid after the second phase, which resolves what the first left out:
/// a band of two units behind the leading band, then the bands of the chunks
/// that start three units behind the leading band.
pub open spec fn phase_two(g: Grid, picks: Picks, height: int, ltr: bool, offset: int) -> Grid {
    chunks_pass(
        band_pass(g, picks, Scan { height, offset, width: 2 * unit(), ltr }),
        picks,
        height,
        ltr,
        offset + 3 * unit(),
        chunk_count(g.len() as int, offset + 3 * unit()),
    )
}

/// The grid after a movement pass that takes the whole grid as one band:
/// every cell is visited once, bottom row first, and at the end every moved
/// flag is cleared. This is the plain sequential pass, which the pass in
/// bands approximates.
pub open spec fn sweep(g: Grid, picks: Picks, height: int, ltr: bool) -> Grid {
    cleared(band_pass(g, picks, Scan { height, offset: 0, width: g.len() as int, ltr }))
}

/// The grid after the movement pass of one tick. A grid of at most four
/// units is swept as one band; a wider one is resolved in two phases of
/// bands. At the end every moved flag is cleared.
pub open spec fn movement(g: Grid, picks: Picks, height: int, ltr: bool, offset: int) -> Grid {
    if g.len() <= 4 * unit() {
        sweep(g, picks, height, ltr)
    } else {
        cleared(phase_two(phase_one(g, picks, height, ltr, offset), picks, height, ltr, offset))
    }
}

/// Moves the cell at `from` of the stored columns `m` to `to`: flags the
/// source, flags the destination unless it is empty, then swaps the two.
/// Whether the move is legal is the caller's business.
pub fn relocate(m: &mut [Vec<PixelContainer>], from: Coordinate, to: Coordinate)
    ensures
        grid_of(final(m)@) == moved(
            grid_of(old(m)@),
            (from.0 as int, from.1 as int),
            (to.0 as int, to.1 as int),
        ),
        final(m)@.len() == old(m)@.len(),
{
    if from.0 < m.len() {
        if from.1 < m[from.0].len() {
            m[from.0][from.1].mark_is_moved(true);
        }
    }
    if to.0 < m.len() {
        if to.1 < m[to.0].len() {
            if !m[to.0][to.1].pixel().pixel_type().is_void() {
                m[to.0][to.1].mark_is_moved(true);
            }
        }
    }
    swap_cells(m, from, to);
}

} // verus!
