//! An empty grid stays as it is.

use crate::laws::rest::{at_rest, lemma_movement_at_rest};
use crate::pixel::Direction;
use crate::sandbox::grid::{adjacent, cell_at, neighbour, neighbour_cell, Grid, Picks};
use crate::sandbox::interaction::{interaction, reacted, touched};
use crate::sandbox::movement::{cleared, movement, step, sweep};
use crate::sandbox::sandbox::{ticked, ticked_in_one};
use crate::sandbox::PixelContainer;
use vstd::prelude::*;

verus! {

/// Every cell is an unlit void that has not moved.
pub open spec fn all_empty(g: Grid) -> bool {
    forall|x: int, y: int|
        0 <= x < g.len() && 0 <= y < g[x].len() ==> #[trigger] g[x][y] == PixelContainer::empty()
}

proof fn lemma_interaction_of_empty(g: Grid, height: int)
    requires
        all_empty(g),
    ensures
        interaction(g, height) == g,
{
    let after = interaction(g, height);
    assert forall|x: int, y: int| 0 <= x < g.len() && 0 <= y < g[x].len() implies after[x][y]
        == g[x][y] by {
        let around = adjacent(g, height, x, y);
        let cell = g[x][y];
        assert(cell == PixelContainer::empty());
        assert forall|dir: Direction|
            (#[trigger] neighbour_cell(g, height, x, y, dir)) is Some implies neighbour_cell(
            g,
            height,
            x,
            y,
            dir,
        ) == Some(PixelContainer::empty()) by {
            let (nx, ny) = neighbour(g.len() as int, height, x, y, dir)->0;
            assert(g[nx][ny] == PixelContainer::empty());
        }
        assert(touched(cell.pixel, around.top) == cell.pixel);
        assert(touched(cell.pixel, around.bottom) == cell.pixel);
        assert(touched(cell.pixel, around.left) == cell.pixel);
        assert(touched(cell.pixel, around.right) == cell.pixel);
        assert(reacted(cell, around) == cell);
    }
    assert(after =~~= g);
}

proof fn lemma_empty_is_at_rest(g: Grid, height: int)
    requires
        all_empty(g),
    ensures
        at_rest(g, height),
        cleared(g) == g,
{
    assert forall|x: int, y: int, pick: int| #[trigger] step(g, height, x, y, pick) == g by {
        if cell_at(g, x, y) is Some {
            assert(g[x][y] == PixelContainer::empty());
        }
    }
    assert forall|x: int, y: int| 0 <= x < g.len() && 0 <= y < g[x].len() implies cleared(
        g,
    )[x][y] == g[x][y] by {
        assert(g[x][y] == PixelContainer::empty());
    }
    assert(cleared(g) =~~= g);
}

/// Ticking a grid in which every cell is empty leaves it unchanged, whatever
/// is drawn and whether the movement pass goes in bands or in one: neither
/// pass has anything to do.
pub proof fn law_empty_grid_stays_empty(
    g: Grid,
    picks: Picks,
    height: int,
    ltr: bool,
    offset: int,
)
    requires
        all_empty(g),
    ensures
        interaction(g, height) == g,
        movement(g, picks, height, ltr, offset) == g,
        sweep(g, picks, height, ltr) == g,
        ticked(g, picks, height, ltr, offset) == g,
        ticked_in_one(g, picks, height, ltr) == g,
{
    lemma_interaction_of_empty(g, height);
    lemma_empty_is_at_rest(g, height);
    lemma_movement_at_rest(g, picks, height, ltr, offset);
}

} // verus!
