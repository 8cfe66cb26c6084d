//! A band can be resolved within a window of the grid: what it does there
//! is what it does within the whole grid.

use crate::laws::shape::{lemma_row_pass_shape, lemma_rows_pass_shape};
use crate::pixel::Direction;
use crate::sandbox::grid::{
    adjacent, cell_at, neighbour, neighbour_cell, pick_at, swapped, with_cell, Grid, Picks,
};
use crate::sandbox::movement::{
    band_pass, destination, flagged, flagged_unless_void, moved, row_pass, rows_pass, step, Scan,
};
use crate::sandbox::PixelContainer;
use vstd::prelude::*;

verus! {

/// The band of `scan`, shifted left by `a` columns: where it lies within a
/// window that starts at column `a`.
pub open spec fn shifted(scan: Scan, a: int) -> Scan {
    Scan { height: scan.height, offset: scan.offset - a, width: scan.width, ltr: scan.ltr }
}

/// The window of columns `a .. b` holds column `x` and, unless the grid
/// ends there, the column on either side of it.
pub open spec fn has_room(total: int, a: int, b: int, x: int) -> bool {
    &&& 0 <= a <= x < b <= total
    &&& a == 0 || a < x
    &&& b == total || x + 1 < b
}

/// The window of columns `a .. b` holds the band of `scan` and, unless the
/// grid ends there, one more column on either side.
pub open spec fn has_room_for(total: int, a: int, b: int, scan: Scan) -> bool {
    &&& 0 <= a <= scan.offset
    &&& 0 <= scan.width
    &&& scan.offset + scan.width <= b <= total
    &&& a == 0 || a < scan.offset
    &&& b == total || scan.offset + scan.width < b
}

/// The draws `inner` are those of `picks` for the columns from `a` on.
pub open spec fn draws_of_window(picks: Picks, inner: Picks, a: int) -> bool {
    forall|x: int, y: int| 0 <= x ==> #[trigger] pick_at(inner, x, y) == pick_at(picks, x + a, y)
}

proof fn lemma_neighbours_in_window(g: Grid, a: int, b: int, height: int, x: int, y: int)
    requires
        has_room(g.len() as int, a, b, x),
    ensures
        adjacent(g.subrange(a, b), height, x - a, y) == adjacent(g, height, x, y),
        forall|dir: Direction|
            #![trigger neighbour(g.len() as int, height, x, y, dir)]
            match neighbour(g.len() as int, height, x, y, dir) {
                Some(to) => a <= to.0 < b && neighbour(b - a, height, x - a, y, dir) == Some(
                    (to.0 - a, to.1),
                ),
                None => neighbour(b - a, height, x - a, y, dir) is None,
            },
{
    let w = g.subrange(a, b);
    assert forall|dir: Direction|
        #![trigger neighbour(g.len() as int, height, x, y, dir)]
        match neighbour(g.len() as int, height, x, y, dir) {
            Some(to) => a <= to.0 < b && neighbour(b - a, height, x - a, y, dir) == Some(
                (to.0 - a, to.1),
            ) && cell_at(w, to.0 - a, to.1) == cell_at(g, to.0, to.1),
            None => neighbour(b - a, height, x - a, y, dir) is None,
        } by {
        match neighbour(g.len() as int, height, x, y, dir) {
            Some(to) => {
                assert(w[to.0 - a] == g[to.0]);
            },
            None => {},
        }
    }
    assert forall|dir: Direction| #[trigger]
        neighbour_cell(w, height, x - a, y, dir) == neighbour_cell(g, height, x, y, dir) by {
        assert(w.len() == b - a);
    }
}

proof fn lemma_with_cell_in_window(
    g: Grid,
    a: int,
    b: int,
    x: int,
    y: int,
    cell: PixelContainer,
)
    requires
        0 <= a <= x < b <= g.len(),
    ensures
        with_cell(g.subrange(a, b), x - a, y, cell) == with_cell(g, x, y, cell).subrange(a, b),
        cell_at(g.subrange(a, b), x - a, y) == cell_at(g, x, y),
{
    let w = g.subrange(a, b);
    assert(w[x - a] == g[x]);
    assert(with_cell(w, x - a, y, cell) =~= with_cell(g, x, y, cell).subrange(a, b));
}

proof fn lemma_flagged_in_window(g: Grid, a: int, b: int, x: int, y: int)
    requires
        0 <= a <= x < b <= g.len(),
    ensures
        flagged(g.subrange(a, b), x - a, y) == flagged(g, x, y).subrange(a, b),
        flagged_unless_void(g.subrange(a, b), x - a, y) == flagged_unless_void(g, x, y).subrange(
            a,
            b,
        ),
{
    match cell_at(g, x, y) {
        Some(cell) => {
            lemma_with_cell_in_window(
                g,
                a,
                b,
                x,
                y,
                PixelContainer { pixel: cell.pixel, is_moved: true },
            );
        },
        None => {
            assert(g.subrange(a, b)[x - a] == g[x]);
        },
    }
}

proof fn lemma_swapped_in_window(g: Grid, a: int, b: int, from: (int, int), to: (int, int))
    requires
        0 <= a <= from.0 < b <= g.len(),
        a <= to.0 < b,
    ensures
        swapped(g.subrange(a, b), (from.0 - a, from.1), (to.0 - a, to.1)) == swapped(
            g,
            from,
            to,
        ).subrange(a, b),
{
    let w = g.subrange(a, b);
    assert(w[from.0 - a] == g[from.0]);
    assert(w[to.0 - a] == g[to.0]);
    match (cell_at(g, from.0, from.1), cell_at(g, to.0, to.1)) {
        (Some(first), Some(second)) => {
            lemma_with_cell_in_window(g, a, b, from.0, from.1, second);
            let half = with_cell(g, from.0, from.1, second);
            lemma_with_cell_in_window(half, a, b, to.0, to.1, first);
        },
        _ => {},
    }
}

proof fn lemma_moved_in_window(g: Grid, a: int, b: int, from: (int, int), to: (int, int))
    requires
        0 <= a <= from.0 < b <= g.len(),
        a <= to.0 < b,
    ensures
        moved(g.subrange(a, b), (from.0 - a, from.1), (to.0 - a, to.1)) == moved(
            g,
            from,
            to,
        ).subrange(a, b),
{
    lemma_flagged_in_window(g, a, b, from.0, from.1);
    let marked = flagged(g, from.0, from.1);
    lemma_flagged_in_window(marked, a, b, to.0, to.1);
    let both = flagged_unless_void(marked, to.0, to.1);
    lemma_swapped_in_window(both, a, b, from, to);
}

proof fn lemma_destination_in_window(
    g: Grid,
    a: int,
    b: int,
    height: int,
    x: int,
    y: int,
    pick: int,
)
    requires
        has_room(g.len() as int, a, b, x),
    ensures
        match destination(g, height, x, y, pick) {
            Some(to) => a <= to.0 < b && destination(g.subrange(a, b), height, x - a, y, pick)
                == Some((to.0 - a, to.1)),
            None => destination(g.subrange(a, b), height, x - a, y, pick) is None,
        },
{
    let w = g.subrange(a, b);
    lemma_neighbours_in_window(g, a, b, height, x, y);
    assert(w.len() == b - a);
    assert(w[x - a] == g[x]);
    assert(cell_at(w, x - a, y) == cell_at(g, x, y));
}

proof fn lemma_step_in_window(g: Grid, a: int, b: int, height: int, x: int, y: int, pick: int)
    requires
        has_room(g.len() as int, a, b, x),
    ensures
        step(g.subrange(a, b), height, x - a, y, pick) == step(g, height, x, y, pick).subrange(
            a,
            b,
        ),
{
    lemma_destination_in_window(g, a, b, height, x, y, pick);
    match destination(g, height, x, y, pick) {
        Some(to) => {
            lemma_moved_in_window(g, a, b, (x, y), to);
        },
        None => {},
    }
}

proof fn lemma_row_pass_in_window(
    g: Grid,
    picks: Picks,
    inner: Picks,
    a: int,
    b: int,
    scan: Scan,
    y: int,
    n: int,
)
    requires
        has_room_for(g.len() as int, a, b, scan),
        draws_of_window(picks, inner, a),
        n <= scan.width,
    ensures
        row_pass(g.subrange(a, b), inner, shifted(scan, a), y, n) == row_pass(
            g,
            picks,
            scan,
            y,
            n,
        ).subrange(a, b),
    decreases n,
{
    if n > 0 {
        lemma_row_pass_in_window(g, picks, inner, a, b, scan, y, n - 1);
        let before = row_pass(g, picks, scan, y, n - 1);
        lemma_row_pass_shape(g, picks, scan, y, n - 1);
        let x = scan.column(n - 1);
        assert(shifted(scan, a).column(n - 1) == x - a);
        assert(pick_at(inner, x - a, y) == pick_at(picks, x, y));
        lemma_step_in_window(before, a, b, scan.height, x, y, pick_at(picks, x, y));
    }
}

proof fn lemma_rows_pass_in_window(
    g: Grid,
    picks: Picks,
    inner: Picks,
    a: int,
    b: int,
    scan: Scan,
    rows: int,
)
    requires
        has_room_for(g.len() as int, a, b, scan),
        draws_of_window(picks, inner, a),
    ensures
        rows_pass(g.subrange(a, b), inner, shifted(scan, a), rows) == rows_pass(
            g,
            picks,
            scan,
            rows,
        ).subrange(a, b),
    decreases rows,
{
    if rows > 0 {
        lemma_rows_pass_in_window(g, picks, inner, a, b, scan, rows - 1);
        let before = rows_pass(g, picks, scan, rows - 1);
        lemma_rows_pass_shape(g, picks, scan, rows - 1);
        lemma_row_pass_in_window(before, picks, inner, a, b, scan, scan.height - rows, scan.width);
    }
}

/// Resolving a band within a window of the grid does to the window what
/// resolving it within the whole grid does, if the window holds the band
/// and, unless the grid ends there, one more column on either side. So the
/// bands of a phase can each be given a window of their own.
pub proof fn law_a_window_is_enough(g: Grid, picks: Picks, inner: Picks, a: int, b: int, scan: Scan)
    requires
        has_room_for(g.len() as int, a, b, scan),
        draws_of_window(picks, inner, a),
    ensures
        band_pass(g.subrange(a, b), inner, shifted(scan, a)) == band_pass(g, picks, scan).subrange(
            a,
            b,
        ),
{
    lemma_rows_pass_in_window(g, picks, inner, a, b, scan, scan.height);
}

} // verus!
