//! A resize moves the content and loses only what no longer fits.

use crate::sandbox::grid::{cell_at, rectangular, Grid};
use crate::sandbox::movement::cleared;
use crate::sandbox::sandbox::{recentre, resized};
use vstd::prelude::*;

verus! {

/// A resize to the size that the grid has keeps every material where it is,
/// and clears the flags.
pub proof fn law_resize_to_the_same_size(g: Grid, height: int)
    requires
        0 <= height,
        rectangular(g, height),
    ensures
        resized(g, height, g.len() as int, height) == cleared(g),
{
    assert(resized(g, height, g.len() as int, height) =~~= cleared(g));
}

/// Growing a grid and shrinking it back to its size loses nothing: every
/// material is where it was.
pub proof fn law_growing_and_shrinking_back(g: Grid, height: int, wider: int, taller: int)
    requires
        0 <= height <= taller,
        g.len() <= wider,
        rectangular(g, height),
    ensures
        resized(resized(g, height, wider, taller), taller, g.len() as int, height) == cleared(g),
{
    let width = g.len() as int;
    let grown = resized(g, height, wider, taller);
    let back = resized(grown, taller, width, height);
    let dx = recentre(width, wider);
    let dy = recentre(height, taller);
    assert(recentre(wider, width) == -dx);
    assert(recentre(taller, height) == -dy);
    assert(0 <= dx && dx + width <= wider) by {
        assert(2 * dx <= wider - width);
    }
    assert(0 <= dy && dy + height <= taller) by {
        assert(2 * dy <= taller - height);
    }
    assert forall|x: int, y: int| 0 <= x < width && 0 <= y < height implies back[x][y] == cleared(
        g,
    )[x][y] by {
        assert(cell_at(grown, x + dx, y + dy) is Some);
        assert(grown[x + dx][y + dy].pixel == g[x][y].pixel);
    }
    assert(back =~~= cleared(g));
}

} // verus!
