//! A lone solid falls one row per tick until it lies on the bottom.

use crate::laws::bands::{chunks_hold, holds, law_every_column_is_held};
use crate::laws::rest::{
    at_rest, lemma_movement_at_rest, lemma_row_pass_at_rest, lemma_rows_pass_at_rest,
};
use crate::pixel::{Direction, Pixel, PixelFundamental};
use crate::sandbox::grid::{adjacent, cell_at, neighbour, neighbour_cell, pick_at, Grid, Picks};
use crate::sandbox::interaction::{interaction, reacted, touched, touched_by_all};
use crate::sandbox::movement::{
    band_pass, chunk_band, chunk_count, chunks_pass, cleared, destination, moved, movement,
    phase_one, phase_two, row_pass, rows_pass, step, sweep, unit, Scan,
};
use crate::sandbox::sandbox::{ticked, ticked_in_one};
use crate::sandbox::PixelContainer;
use vstd::prelude::*;

verus! {

/// The `width` by `height` grid that is empty but for `cell` at `(x, y)`.
pub open spec fn lone(width: int, height: int, x: int, y: int, cell: PixelContainer) -> Grid {
    Seq::new(
        width as nat,
        |i: int|
            Seq::new(
                height as nat,
                |j: int|
                    if i == x && j == y {
                        cell
                    } else {
                        PixelContainer::empty()
                    },
            ),
    )
}

/// The material is a solid.
pub open spec fn is_solid(pixel: Pixel) -> bool {
    pixel.spec_pixel_type() is Solid
}

/// The row in which a solid of row `y` lies after one tick: the next one
/// down, unless `y` is the bottom row.
pub open spec fn landing(height: int, y: int) -> int {
    if y + 1 < height {
        y + 1
    } else {
        y
    }
}

/// The grid in which the solid has not fallen yet.
pub open spec fn above(width: int, height: int, x: int, y: int, pixel: Pixel) -> Grid {
    lone(width, height, x, y, PixelContainer { pixel, is_moved: false })
}

/// The grid in which the solid has just fallen, and is flagged for it.
pub open spec fn below(width: int, height: int, x: int, y: int, pixel: Pixel) -> Grid {
    lone(width, height, x, y + 1, PixelContainer { pixel, is_moved: true })
}

proof fn lemma_below_at_rest(width: int, height: int, x: int, y: int, pixel: Pixel)
    requires
        0 <= x < width,
        0 <= y,
        y + 1 < height,
    ensures
        at_rest(below(width, height, x, y, pixel), height),
{
    let g = below(width, height, x, y, pixel);
    assert forall|cx: int, cy: int, pick: int| #[trigger] step(g, height, cx, cy, pick) == g by {
        if cell_at(g, cx, cy) is Some {
            assert(g[cx][cy] == if cx == x && cy == y + 1 {
                PixelContainer { pixel, is_moved: true }
            } else {
                PixelContainer::empty()
            });
        }
    }
}

proof fn lemma_grounded_at_rest(width: int, height: int, x: int, pixel: Pixel)
    requires
        0 <= x < width,
        0 < height,
        is_solid(pixel),
    ensures
        at_rest(above(width, height, x, height - 1, pixel), height),
{
    let y = height - 1;
    let g = above(width, height, x, y, pixel);
    assert forall|cx: int, cy: int, pick: int| #[trigger] step(g, height, cx, cy, pick) == g by {
        if cell_at(g, cx, cy) is Some {
            if cx == x && cy == y {
                let around = adjacent(g, height, x, y);
                assert(neighbour(g.len() as int, height, x, y, Direction::Down) is None);
                assert(neighbour(g.len() as int, height, x, y, Direction::DownLeft) is None);
                assert(neighbour(g.len() as int, height, x, y, Direction::DownRight) is None);
                let dirs = pixel.candidates(pick);
                assert(dirs == Direction::down_list(pick));
                assert(dirs.len() == 3);
                assert(!pixel.spec_can_move_to_dir(around, dirs[0]));
                assert(!pixel.spec_can_move_to_dir(around, dirs[1]));
                assert(!pixel.spec_can_move_to_dir(around, dirs[2]));
                assert(pixel.first_legal(around, dirs, 3) is None);
                assert(pixel.first_legal(around, dirs, 2) is None);
                assert(pixel.first_legal(around, dirs, 1) is None);
                assert(pixel.first_legal(around, dirs, 0) is None);
                assert(destination(g, height, cx, cy, pick) is None);
            } else {
                assert(g[cx][cy] == PixelContainer::empty());
            }
        }
    }
}

/// Visiting the solid makes it fall.
proof fn lemma_step_falls(width: int, height: int, x: int, y: int, pixel: Pixel, pick: int)
    requires
        0 <= x < width,
        0 <= y,
        y + 1 < height,
        is_solid(pixel),
    ensures
        step(above(width, height, x, y, pixel), height, x, y, pick) == below(
            width,
            height,
            x,
            y,
            pixel,
        ),
{
    let g = above(width, height, x, y, pixel);
    let around = adjacent(g, height, x, y);
    assert(neighbour(g.len() as int, height, x, y, Direction::Down) == Some((x, y + 1)));
    assert(g[x][y + 1] == PixelContainer::empty());
    assert(around.bottom == Some(PixelContainer::empty()));
    let dirs = pixel.candidates(pick);
    assert(dirs == Direction::down_list(pick));
    assert(dirs[0] == Direction::Down);
    assert(pixel.spec_can_move_to_dir(around, Direction::Down));
    assert(pixel.first_legal(around, dirs, 0) == Some(Direction::Down));
    assert(destination(g, height, x, y, pick) == Some((x, y + 1)));
    assert(moved(g, (x, y), (x, y + 1)) =~~= below(width, height, x, y, pixel));
}

/// Visiting any other cell does nothing.
proof fn lemma_step_elsewhere(
    width: int,
    height: int,
    x: int,
    y: int,
    pixel: Pixel,
    cx: int,
    cy: int,
    pick: int,
)
    requires
        cx != x || cy != y,
    ensures
        step(above(width, height, x, y, pixel), height, cx, cy, pick) == above(
            width,
            height,
            x,
            y,
            pixel,
        ),
{
    let g = above(width, height, x, y, pixel);
    if cell_at(g, cx, cy) is Some {
        assert(g[cx][cy] == PixelContainer::empty());
    }
}

/// The place of column `x` in the order in which `scan` visits a row.
pub open spec fn place_in(scan: Scan, x: int) -> int {
    if scan.ltr {
        x - scan.offset
    } else {
        scan.offset + scan.width - 1 - x
    }
}

proof fn lemma_row_pass_other_row(
    width: int,
    x: int,
    y: int,
    pixel: Pixel,
    picks: Picks,
    scan: Scan,
    row: int,
    n: int,
)
    requires
        row != y || !holds(scan, x),
        n <= scan.width,
    ensures
        row_pass(above(width, scan.height, x, y, pixel), picks, scan, row, n) == above(
            width,
            scan.height,
            x,
            y,
            pixel,
        ),
    decreases n,
{
    if n > 0 {
        lemma_row_pass_other_row(width, x, y, pixel, picks, scan, row, n - 1);
        let cx = scan.column(n - 1);
        lemma_step_elsewhere(width, scan.height, x, y, pixel, cx, row, pick_at(picks, cx, row));
    }
}

proof fn lemma_row_pass_own_row(
    width: int,
    x: int,
    y: int,
    pixel: Pixel,
    picks: Picks,
    scan: Scan,
    n: int,
)
    requires
        0 <= x < width,
        0 <= y,
        y + 1 < scan.height,
        is_solid(pixel),
        holds(scan, x),
        n <= scan.width,
    ensures
        row_pass(above(width, scan.height, x, y, pixel), picks, scan, y, n) == if n > place_in(
            scan,
            x,
        ) {
            below(width, scan.height, x, y, pixel)
        } else {
            above(width, scan.height, x, y, pixel)
        },
    decreases n,
{
    if n > 0 {
        lemma_row_pass_own_row(width, x, y, pixel, picks, scan, n - 1);
        let cx = scan.column(n - 1);
        let pick = pick_at(picks, cx, y);
        if n - 1 > place_in(scan, x) {
            lemma_below_at_rest(width, scan.height, x, y, pixel);
            assert(step(below(width, scan.height, x, y, pixel), scan.height, cx, y, pick) == below(
                width,
                scan.height,
                x,
                y,
                pixel,
            ));
        } else if n - 1 == place_in(scan, x) {
            assert(cx == x);
            lemma_step_falls(width, scan.height, x, y, pixel, pick);
        } else {
            assert(cx != x);
            lemma_step_elsewhere(width, scan.height, x, y, pixel, cx, y, pick);
        }
    }
}

proof fn lemma_rows_pass_falls(
    width: int,
    x: int,
    y: int,
    pixel: Pixel,
    picks: Picks,
    scan: Scan,
    rows: int,
)
    requires
        0 <= x < width,
        0 <= y,
        y + 1 < scan.height,
        is_solid(pixel),
        0 <= scan.width,
        rows <= scan.height,
    ensures
        rows_pass(above(width, scan.height, x, y, pixel), picks, scan, rows) == if holds(scan, x)
            && rows >= scan.height - y {
            below(width, scan.height, x, y, pixel)
        } else {
            above(width, scan.height, x, y, pixel)
        },
    decreases rows,
{
    if rows > 0 {
        lemma_rows_pass_falls(width, x, y, pixel, picks, scan, rows - 1);
        let row = scan.height - rows;
        if holds(scan, x) && rows - 1 >= scan.height - y {
            lemma_below_at_rest(width, scan.height, x, y, pixel);
            lemma_row_pass_at_rest(
                below(width, scan.height, x, y, pixel),
                picks,
                scan,
                row,
                scan.width,
            );
        } else if holds(scan, x) && row == y {
            lemma_row_pass_own_row(width, x, y, pixel, picks, scan, scan.width);
        } else {
            lemma_row_pass_other_row(width, x, y, pixel, picks, scan, row, scan.width);
        }
    }
}

/// A pass over a band makes the solid fall if the band holds its column,
/// and does nothing if not; once it has fallen no pass moves it again.
proof fn lemma_band_pass_falls(
    width: int,
    x: int,
    y: int,
    pixel: Pixel,
    picks: Picks,
    scan: Scan,
)
    requires
        0 <= x < width,
        0 <= y,
        y + 1 < scan.height,
        is_solid(pixel),
    ensures
        band_pass(above(width, scan.height, x, y, pixel), picks, scan) == if holds(scan, x) {
            below(width, scan.height, x, y, pixel)
        } else {
            above(width, scan.height, x, y, pixel)
        },
        band_pass(below(width, scan.height, x, y, pixel), picks, scan) == below(
            width,
            scan.height,
            x,
            y,
            pixel,
        ),
{
    lemma_below_at_rest(width, scan.height, x, y, pixel);
    lemma_rows_pass_at_rest(below(width, scan.height, x, y, pixel), picks, scan, scan.height);
    if scan.width >= 0 {
        lemma_rows_pass_falls(width, x, y, pixel, picks, scan, scan.height);
    } else {
        lemma_rows_pass_idle(above(width, scan.height, x, y, pixel), picks, scan, scan.height);
    }
}

/// A band without columns has nothing to visit.
proof fn lemma_rows_pass_idle(g: Grid, picks: Picks, scan: Scan, rows: int)
    requires
        scan.width <= 0,
    ensures
        rows_pass(g, picks, scan, rows) == g,
    decreases rows,
{
    if rows > 0 {
        lemma_rows_pass_idle(g, picks, scan, rows - 1);
    }
}

proof fn lemma_chunks_pass_falls(
    width: int,
    height: int,
    x: int,
    y: int,
    pixel: Pixel,
    picks: Picks,
    ltr: bool,
    first: int,
    count: int,
)
    requires
        0 <= x < width,
        0 <= y,
        y + 1 < height,
        is_solid(pixel),
    ensures
        chunks_pass(above(width, height, x, y, pixel), picks, height, ltr, first, count)
            == if chunks_hold(width, first, count, x) {
            below(width, height, x, y, pixel)
        } else {
            above(width, height, x, y, pixel)
        },
        chunks_pass(below(width, height, x, y, pixel), picks, height, ltr, first, count) == below(
            width,
            height,
            x,
            y,
            pixel,
        ),
    decreases count,
{
    if count > 0 {
        lemma_chunks_pass_falls(width, height, x, y, pixel, picks, ltr, first, count - 1);
        let start = first + 4 * unit() * (count - 1);
        assert(above(width, height, x, y, pixel).len() == width);
        assert(below(width, height, x, y, pixel).len() == width);
        match chunk_band(width, height, ltr, start) {
            Some(scan) => lemma_band_pass_falls(width, x, y, pixel, picks, scan),
            None => {},
        }
    }
}

proof fn lemma_cleared_below(width: int, height: int, x: int, y: int, pixel: Pixel)
    ensures
        cleared(below(width, height, x, y, pixel)) == above(width, height, x, y + 1, pixel),
        cleared(above(width, height, x, y, pixel)) == above(width, height, x, y, pixel),
{
    assert(cleared(below(width, height, x, y, pixel)) =~~= above(width, height, x, y + 1, pixel));
    assert(cleared(above(width, height, x, y, pixel)) =~~= above(width, height, x, y, pixel));
}

/// In a grid that is empty but for one solid, the movement pass takes the
/// solid one row down, and leaves it where it is once it lies in the bottom
/// row. This holds whatever is drawn, whether the pass goes in one band or
/// in many, and wherever the seams of the bands lie.
pub proof fn law_lone_solid_falls(
    width: int,
    height: int,
    x: int,
    y: int,
    pixel: Pixel,
    picks: Picks,
    ltr: bool,
    offset: int,
)
    requires
        0 <= x < width,
        0 <= y < height,
        is_solid(pixel),
        1 <= offset <= 2 * unit(),
    ensures
        movement(above(width, height, x, y, pixel), picks, height, ltr, offset) == above(
            width,
            height,
            x,
            landing(height, y),
            pixel,
        ),
        sweep(above(width, height, x, y, pixel), picks, height, ltr) == above(
            width,
            height,
            x,
            landing(height, y),
            pixel,
        ),
{
    let start = above(width, height, x, y, pixel);
    let fallen = below(width, height, x, y, pixel);
    lemma_cleared_below(width, height, x, y, pixel);
    assert(start.len() == width);
    assert(fallen.len() == width);
    if y + 1 == height {
        lemma_grounded_at_rest(width, height, x, pixel);
        lemma_movement_at_rest(start, picks, height, ltr, offset);
    } else {
        lemma_band_pass_falls(width, x, y, pixel, picks, Scan { height, offset: 0, width, ltr });
        if width > 4 * unit() {
            law_every_column_is_held(width, offset, x);
            lemma_band_pass_falls(
                width,
                x,
                y,
                pixel,
                picks,
                Scan { height, offset: 0, width: offset, ltr },
            );
            lemma_chunks_pass_falls(
                width,
                height,
                x,
                y,
                pixel,
                picks,
                ltr,
                offset + unit(),
                chunk_count(width, offset + unit()),
            );
            let one = phase_one(start, picks, height, ltr, offset);
            assert(one == start || one == fallen);
            lemma_band_pass_falls(
                width,
                x,
                y,
                pixel,
                picks,
                Scan { height, offset, width: 2 * unit(), ltr },
            );
            lemma_chunks_pass_falls(
                width,
                height,
                x,
                y,
                pixel,
                picks,
                ltr,
                offset + 3 * unit(),
                chunk_count(width, offset + 3 * unit()),
            );
            assert(phase_two(one, picks, height, ltr, offset) == fallen);
        }
    }
}

/// The material does not change when nothing but the void touches it and
/// it is then updated.
pub open spec fn is_inert(pixel: Pixel) -> bool {
    pixel.updated() == (pixel, None::<Pixel>)
}

proof fn lemma_interaction_of_lone(width: int, height: int, x: int, y: int, pixel: Pixel)
    requires
        0 <= x < width,
        0 <= y < height,
        is_solid(pixel),
        is_inert(pixel),
    ensures
        interaction(above(width, height, x, y, pixel), height) == above(width, height, x, y, pixel),
{
    let g = above(width, height, x, y, pixel);
    let after = interaction(g, height);
    assert forall|i: int, j: int| 0 <= i < g.len() && 0 <= j < g[i].len() implies after[i][j]
        == g[i][j] by {
        let around = adjacent(g, height, i, j);
        let cell = g[i][j];
        assert forall|dir: Direction| (#[trigger] neighbour_cell(g, height, i, j, dir)) is Some implies {
            let other = neighbour_cell(g, height, i, j, dir)->0;
            other == PixelContainer::empty() || (other.pixel == pixel && (i != x || j != y))
        } by {
            let (ni, nj) = neighbour(g.len() as int, height, i, j, dir)->0;
            assert(g[ni][nj] == if ni == x && nj == y {
                PixelContainer { pixel, is_moved: false }
            } else {
                PixelContainer::empty()
            });
        }
        assert(touched(cell.pixel, around.top) == cell.pixel);
        let a = touched(cell.pixel, around.top);
        assert(touched(a, around.bottom) == cell.pixel);
        let b = touched(a, around.bottom);
        assert(touched(b, around.left) == cell.pixel);
        let c = touched(b, around.left);
        assert(touched(c, around.right) == cell.pixel);
        assert(touched_by_all(cell.pixel, around) == cell.pixel);
        assert(reacted(cell, around) == cell);
    }
    assert(after =~~= g);
}

/// A single inert solid in an otherwise empty grid descends exactly one row
/// per tick until it reaches the bottom row, and then stays.
pub proof fn law_lone_solid_descends(
    width: int,
    height: int,
    x: int,
    y: int,
    pixel: Pixel,
    picks: Picks,
    ltr: bool,
    offset: int,
)
    requires
        0 <= x < width,
        0 <= y < height,
        is_solid(pixel),
        is_inert(pixel),
        1 <= offset <= 2 * unit(),
    ensures
        ticked(above(width, height, x, y, pixel), picks, height, ltr, offset) == above(
            width,
            height,
            x,
            landing(height, y),
            pixel,
        ),
        ticked_in_one(above(width, height, x, y, pixel), picks, height, ltr) == above(
            width,
            height,
            x,
            landing(height, y),
            pixel,
        ),
{
    lemma_interaction_of_lone(width, height, x, y, pixel);
    law_lone_solid_falls(width, height, x, y, pixel, picks, ltr, offset);
}

} // verus!
