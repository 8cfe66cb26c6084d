//! What the interaction and update pass does to a grid.
//!
//! Every cell reads its own value and its four orthogonal neighbours as
//! they stood before the pass, and writes only itself.

use crate::pixel::{Pixel, PixelFundamental, PixelInteract};
use crate::sandbox::grid::{adjacent, Grid};
use crate::sandbox::{AdjacentPixels, PixelContainer};
use vstd::prelude::*;

verus! {

/// The material `pixel` after contact with `neighbour`, if there is one.
pub open spec fn touched(pixel: Pixel, neighbour: Option<PixelContainer>) -> Pixel {
    match neighbour {
        Some(target) => pixel.interacted(target.pixel),
        None => pixel,
    }
}

/// The material `pixel` after contact with its orthogonal neighbours, in
/// the fixed order up, down, left, right.
pub open spec fn touched_by_all(pixel: Pixel, adjacent: AdjacentPixels) -> Pixel {
    touched(
        touched(touched(touched(pixel, adjacent.top), adjacent.bottom), adjacent.left),
        adjacent.right,
    )
}

/// The cell after the pass: its material interacts with the neighbours and
/// is then updated once. A material that changes phase is replaced, in a
/// cell that has not moved; one that does not keeps the cell's flag.
pub open spec fn reacted(cell: PixelContainer, adjacent: AdjacentPixels) -> PixelContainer {
    let pixel = touched_by_all(cell.pixel, adjacent);
    match pixel.updated().1 {
        Some(replacement) => PixelContainer { pixel: replacement, is_moved: false },
        None => PixelContainer { pixel: pixel.updated().0, is_moved: cell.is_moved },
    }
}

/// The grid after the pass.
pub open spec fn interaction(g: Grid, height: int) -> Grid {
    Seq::new(
        g.len(),
        |x: int| Seq::new(g[x].len(), |y: int| reacted(g[x][y], adjacent(g, height, x, y))),
    )
}

impl PixelContainer {
    /// This cell after one interaction and update pass in which `adjacent`
    /// are its neighbours.
    pub fn react(&self, adjacent: &AdjacentPixels) -> (r: PixelContainer)
        ensures
            r == reacted(*self, *adjacent),
    {
        let mut pixel = self.pixel;
        if let Some(target) = adjacent.top {
            pixel.interact(target.pixel());
        }
        if let Some(target) = adjacent.bottom {
            pixel.interact(target.pixel());
        }
        if let Some(target) = adjacent.left {
            pixel.interact(target.pixel());
        }
        if let Some(target) = adjacent.right {
            pixel.interact(target.pixel());
        }
        match pixel.update() {
            Some(replacement) => PixelContainer::new(replacement),
            None => PixelContainer { pixel, is_moved: self.is_moved },
        }
    }
}

} // verus!
