//! The grid as a mathematical value: a sequence of columns of cells.

use crate::pixel::Direction;
use crate::sandbox::{AdjacentPixels, Coordinate, PixelContainer};
use vstd::prelude::*;

verus! {

/// Columns of cells; `g[x][y]` is the cell in column `x`, row `y`.
pub type Grid = Seq<Seq<PixelContainer>>;

/// One draw for each cell, laid out as the grid is.
pub type Picks = Seq<Seq<u8>>;

/// The columns that a sequence of stored columns holds, as plain values.
pub open spec fn grid_of<T>(columns: Seq<Vec<T>>) -> Seq<Seq<T>> {
    Seq::new(columns.len(), |x: int| columns[x]@)
}

/// The draw for the cell at `(x, y)`; where none was made it counts as 0.
pub open spec fn pick_at(picks: Picks, x: int, y: int) -> int {
    if 0 <= x < picks.len() && 0 <= y < picks[x].len() {
        picks[x][y] as int
    } else {
        0
    }
}

/// Every column has `height` cells.
pub open spec fn rectangular(g: Grid, height: int) -> bool {
    forall|x: int| 0 <= x < g.len() ==> (#[trigger] g[x]).len() == height
}

/// The cell at `(x, y)`, if the grid has one there.
pub open spec fn cell_at(g: Grid, x: int, y: int) -> Option<PixelContainer> {
    if 0 <= x < g.len() && 0 <= y < g[x].len() {
        Some(g[x][y])
    } else {
        None
    }
}

/// The grid with the cell at `(x, y)` replaced, where there is one.
pub open spec fn with_cell(g: Grid, x: int, y: int, cell: PixelContainer) -> Grid {
    if 0 <= x < g.len() && 0 <= y < g[x].len() {
        g.update(x, g[x].update(y, cell))
    } else {
        g
    }
}

/// The coordinate one step from `(x, y)` in direction `dir` within a
/// `width` by `height` rectangle. There is none from outside the rectangle,
/// and none across its edge.
pub open spec fn neighbour(width: int, height: int, x: int, y: int, dir: Direction) -> Option<
    (int, int),
> {
    let nx = x + dir.delta().0;
    let ny = y + dir.delta().1;
    if 0 <= x < width && 0 <= y < height && 0 <= nx < width && 0 <= ny < height {
        Some((nx, ny))
    } else {
        None
    }
}

/// The cell one step from `(x, y)` in direction `dir`.
pub open spec fn neighbour_cell(g: Grid, height: int, x: int, y: int, dir: Direction) -> Option<
    PixelContainer,
> {
    match neighbour(g.len() as int, height, x, y, dir) {
        Some((nx, ny)) => cell_at(g, nx, ny),
        None => None,
    }
}

/// The eight neighbours of `(x, y)`.
pub open spec fn adjacent(g: Grid, height: int, x: int, y: int) -> AdjacentPixels {
    AdjacentPixels {
        top: neighbour_cell(g, height, x, y, Direction::Up),
        bottom: neighbour_cell(g, height, x, y, Direction::Down),
        left: neighbour_cell(g, height, x, y, Direction::Left),
        right: neighbour_cell(g, height, x, y, Direction::Right),
        top_left: neighbour_cell(g, height, x, y, Direction::UpLeft),
        top_right: neighbour_cell(g, height, x, y, Direction::UpRight),
        bottom_left: neighbour_cell(g, height, x, y, Direction::DownLeft),
        bottom_right: neighbour_cell(g, height, x, y, Direction::DownRight),
    }
}

/// The grid with the cells at `a` and `b` exchanged; unchanged unless both
/// exist.
pub open spec fn swapped(g: Grid, a: (int, int), b: (int, int)) -> Grid {
    match (cell_at(g, a.0, a.1), cell_at(g, b.0, b.1)) {
        (Some(first), Some(second)) => with_cell(
            with_cell(g, a.0, a.1, second),
            b.0,
            b.1,
            first,
        ),
        _ => g,
    }
}

/// The cell at `cord` of the stored columns `m` for writing. What the caller
/// leaves in it is what `m` then holds there; nothing else changes.
pub fn cell_mut(m: &mut [Vec<PixelContainer>], cord: Coordinate) -> (r: Option<&mut PixelContainer>)
    ensures
        match r {
            Some(p) => cell_at(grid_of(old(m)@), cord.0 as int, cord.1 as int) == Some(*p)
                && grid_of(final(m)@) == with_cell(
                grid_of(old(m)@),
                cord.0 as int,
                cord.1 as int,
                *final(p),
            ),
            None => cell_at(grid_of(old(m)@), cord.0 as int, cord.1 as int) is None && grid_of(
                final(m)@,
            ) == grid_of(old(m)@),
        },
        final(m)@.len() == old(m)@.len(),
{
    if cord.0 < m.len() {
        if cord.1 < m[cord.0].len() {
            return Some(&mut m[cord.0][cord.1]);
        }
    }
    None
}

/// Exchanges the cells at `cord1` and `cord2` of the stored columns `m`.
/// Does nothing unless both exist.
pub fn swap_cells(m: &mut [Vec<PixelContainer>], cord1: Coordinate, cord2: Coordinate)
    ensures
        grid_of(final(m)@) == swapped(
            grid_of(old(m)@),
            (cord1.0 as int, cord1.1 as int),
            (cord2.0 as int, cord2.1 as int),
        ),
        final(m)@.len() == old(m)@.len(),
{
    if cord1.0 < m.len() && cord2.0 < m.len() {
        if cord1.1 < m[cord1.0].len() && cord2.1 < m[cord2.0].len() {
            let first = m[cord1.0][cord1.1];
            let second = m[cord2.0][cord2.1];
            m[cord1.0][cord1.1] = second;
            m[cord2.0][cord2.1] = first;
        }
    }
}

} // verus!
