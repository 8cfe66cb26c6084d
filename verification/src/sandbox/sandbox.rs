//! The simulation: a grid, the direction of its next scan and its source of
//! randomness.

use crate::pixel::{Pixel, PixelFundamental};
use crate::random::{seeded_rng, RandomSource};
use crate::sandbox::grid::{
    adjacent, cell_at, cell_mut, grid_of, swap_cells, with_cell, Grid, Picks,
};
use crate::sandbox::interaction::{interaction, reacted};
use crate::sandbox::movement::{
    band_pass, chunk_count, chunks_pass, cleared, movement, sweep, unit, Scan,
    VIRTUAL_COLUMNIZED_WIDTH,
};
use crate::sandbox::virtualbox::VirtualBox;
use crate::sandbox::{Coordinate, PixelContainer, SandboxControl};
use rand::rngs::SmallRng;
use vstd::prelude::*;

verus! {

/// The number of candidate lists in the largest pool. A draw below it
/// selects evenly from every pool, for their sizes all divide it.
pub const PICK_BOUND: usize = 12;

/// A grid of `width` columns of `height` empty cells.
pub open spec fn blank(width: int, height: int) -> Grid {
    Seq::new(width as nat, |x: int| Seq::new(height as nat, |y: int| PixelContainer::empty()))
}

/// The grid after one tick: the interaction and update pass, then the
/// movement pass with the band offset `offset` and the draws `picks`.
pub open spec fn ticked(g: Grid, picks: Picks, height: int, ltr: bool, offset: int) -> Grid {
    movement(interaction(g, height), picks, height, ltr, offset)
}

/// The grid after one tick whose movement pass takes the whole grid as one
/// band.
pub open spec fn ticked_in_one(g: Grid, picks: Picks, height: int, ltr: bool) -> Grid {
    sweep(interaction(g, height), picks, height, ltr)
}

/// How far the old content shifts along one axis when the axis goes from
/// `old` to `new` cells: half the difference, rounded toward zero.
pub open spec fn recentre(old: int, new: int) -> int {
    if new >= old {
        (new - old) / 2
    } else {
        -((old - new) / 2)
    }
}

/// The grid after a resize to `width` by `height`: every old cell moves by
/// the same shift, which keeps the content centred; what falls outside is
/// dropped, what is new is empty, and no cell counts as moved.
pub open spec fn resized(g: Grid, rows: int, width: int, height: int) -> Grid {
    Seq::new(
        width as nat,
        |x: int|
            Seq::new(
                height as nat,
                |y: int|
                    match cell_at(
                        g,
                        x - recentre(g.len() as int, width),
                        y - recentre(rows, height),
                    ) {
                        Some(cell) => PixelContainer { pixel: cell.pixel, is_moved: false },
                        None => PixelContainer::empty(),
                    },
            ),
    )
}

/// The simulation. The grid is stored column by column. A sandbox is made
/// with columns as tall as the grid, and nothing it does changes that.
pub struct Sandbox<R: RandomSource> {
    height: usize,
    pixels: Vec<Vec<PixelContainer>>,
    ltr: bool,
    rng: R,
}

impl<R: RandomSource> Sandbox<R> {
    /// Whether the next movement pass scans its rows from left to right.
    /// The direction alternates from tick to tick.
    pub closed spec fn scans_ltr(&self) -> bool {
        self.ltr
    }
}

impl<R: RandomSource> SandboxControl for Sandbox<R> {
    closed spec fn columns(&self) -> Seq<Vec<PixelContainer>> {
        self.pixels@
    }

    closed spec fn rows(&self) -> int {
        self.height as int
    }

    fn matrix(&self) -> (m: &[Vec<PixelContainer>]) {
        self.pixels.as_slice()
    }

    fn matrix_mut(&mut self) -> (m: &mut [Vec<PixelContainer>])
        ensures
            final(self).scans_ltr() == old(self).scans_ltr(),
    {
        self.pixels.as_mut_slice()
    }

    fn get_pixel_mut(&mut self, cord: Coordinate) -> (r: Option<&mut PixelContainer>)
        ensures
            final(self).scans_ltr() == old(self).scans_ltr(),
    {
        cell_mut(self.pixels.as_mut_slice(), cord)
    }

    fn swap_pixels(&mut self, cord1: Coordinate, cord2: Coordinate)
        ensures
            final(self).scans_ltr() == old(self).scans_ltr(),
    {
        swap_cells(self.pixels.as_mut_slice(), cord1, cord2);
    }

    fn width(&self) -> (w: usize) {
        self.pixels.len()
    }

    fn height(&self) -> (h: usize) {
        self.height
    }
}

/// A column of `height` empty cells.
fn empty_column(height: usize) -> (column: Vec<PixelContainer>)
    ensures
        column@ == Seq::new(height as nat, |y: int| PixelContainer::empty()),
{
    let mut column: Vec<PixelContainer> = Vec::new();
    let mut y: usize = 0;
    while y < height
        invariant
            y <= height,
            column@ == Seq::new(y as nat, |y: int| PixelContainer::empty()),
        decreases height - y,
    {
        column.push(PixelContainer::default());
        y += 1;
    }
    column
}

impl Sandbox<SmallRng> {
    /// An empty grid of `width` by `height` cells with a generator of its
    /// own, which is seeded alike in every sandbox made here.
    pub fn new(width: usize, height: usize) -> (s: Sandbox<SmallRng>)
        ensures
            s.cells() == blank(width as int, height as int),
            s.rows() == height,
            s.scans_ltr(),
    {
        Sandbox::new_with_rng(width, height, seeded_rng(0))
    }
}

impl<R: RandomSource> Sandbox<R> {
    /// The cells as a rectangle of plain values.
    pub open spec fn cells(&self) -> Grid {
        grid_of(self.columns())
    }

    /// An empty grid of `width` by `height` cells that draws from `rng`.
    /// Either dimension may be zero: the grid then has no cells, and every
    /// operation leaves it so.
    pub fn new_with_rng(width: usize, height: usize, rng: R) -> (s: Self)
        ensures
            s.cells() == blank(width as int, height as int),
            s.rows() == height,
            s.scans_ltr(),
    {
        let mut pixels: Vec<Vec<PixelContainer>> = Vec::new();
        let mut x: usize = 0;
        while x < width
            invariant
                x <= width,
                grid_of(pixels@) == blank(x as int, height as int),
            decreases width - x,
        {
            let ghost before = grid_of(pixels@);
            pixels.push(empty_column(height));
            x += 1;
            assert(grid_of(pixels@) =~= before.push(
                Seq::new(height as nat, |y: int| PixelContainer::empty()),
            ));
            assert(grid_of(pixels@) =~= blank(x as int, height as int));
        }
        Sandbox { height, pixels, ltr: true, rng }
    }

    /// Puts `pixel` into the cell at `cord` if that cell is empty. An
    /// occupied cell is left as it is, and so is the grid if it has no such
    /// cell.
    pub fn place_pixel(&mut self, pixel: Pixel, cord: Coordinate)
        ensures
            final(self).cells() == match cell_at(old(self).cells(), cord.0 as int, cord.1 as int) {
                Some(cell) => if cell.pixel.spec_pixel_type().spec_is_void() {
                    with_cell(
                        old(self).cells(),
                        cord.0 as int,
                        cord.1 as int,
                        PixelContainer { pixel, is_moved: false },
                    )
                } else {
                    old(self).cells()
                },
                None => old(self).cells(),
            },
            final(self).rows() == old(self).rows(),
            final(self).scans_ltr() == old(self).scans_ltr(),
    {
        if cord.0 < self.pixels.len() {
            if cord.1 < self.pixels[cord.0].len() {
                if !self.pixels[cord.0][cord.1].pixel().pixel_type().is_void() {
                    return ;
                }
                self.pixels[cord.0][cord.1] = PixelContainer::new(pixel);
            }
        }
    }

    /// Puts `pixel` into the cell at `cord`, whatever it holds. The grid is
    /// left as it is if it has no such cell.
    pub fn place_pixel_force(&mut self, pixel: Pixel, cord: Coordinate)
        ensures
            final(self).cells() == with_cell(
                old(self).cells(),
                cord.0 as int,
                cord.1 as int,
                PixelContainer { pixel, is_moved: false },
            ),
            final(self).rows() == old(self).rows(),
            final(self).scans_ltr() == old(self).scans_ltr(),
    {
        if cord.0 < self.pixels.len() {
            if cord.1 < self.pixels[cord.0].len() {
                self.pixels[cord.0][cord.1] = PixelContainer::new(pixel);
            }
        }
    }

    /// The interaction and update pass: every cell meets its four orthogonal
    /// neighbours as they stood before the pass, and is then updated.
    pub fn exec_pixels_interaction(&mut self)
        ensures
            final(self).cells() == interaction(old(self).cells(), old(self).rows()),
            final(self).rows() == old(self).rows(),
            final(self).scans_ltr() == old(self).scans_ltr(),
    {
        let ghost g = self.cells();
        let ghost height = self.rows();
        let width = self.pixels.len();
        let mut buffer: Vec<Vec<PixelContainer>> = Vec::new();
        let mut x: usize = 0;
        while x < width
            invariant
                x <= width,
                width == self.pixels@.len(),
                self.cells() == g,
                self.rows() == height,
                *self == *old(self),
                buffer@.len() == x,
                forall|i: int| 0 <= i < x ==> (#[trigger] buffer@[i])@ == interaction(g, height)[i],
            decreases width - x,
        {
            let len = self.pixels[x].len();
            let mut column: Vec<PixelContainer> = Vec::new();
            let mut y: usize = 0;
            while y < len
                invariant
                    y <= len,
                    x < width,
                    width == self.pixels@.len(),
                    len == self.pixels@[x as int]@.len(),
                    self.cells() == g,
                    self.rows() == height,
                    *self == *old(self),
                    column@.len() == y,
                    forall|j: int|
                        0 <= j < y ==> #[trigger] column@[j] == reacted(
                            g[x as int][j],
                            adjacent(g, height, x as int, j),
                        ),
                decreases len - y,
            {
                let cell = self.pixels[x][y];
                let around = self.get_adjacent_pixels((x, y));
                column.push(cell.react(&around));
                y += 1;
            }
            assert(column@ =~= interaction(g, height)[x as int]);
            buffer.push(column);
            x += 1;
        }
        assert(grid_of(buffer@) =~= interaction(g, height));
        self.pixels = buffer;
    }

    /// Resolves the band of `virtual_width` columns from column `offset`,
    /// or what the grid has of it.
    fn resolve_band(&mut self, offset: usize, virtual_width: usize, picks: &[Vec<u8>])
        ensures
            final(self).cells() == band_pass(
                old(self).cells(),
                grid_of(picks@),
                Scan {
                    height: old(self).rows(),
                    offset: offset as int,
                    width: VirtualBox::fitted(
                        old(self).cells().len() as int,
                        offset as int,
                        virtual_width as int,
                    ),
                    ltr: old(self).scans_ltr(),
                },
            ),
            final(self).cells().len() == old(self).cells().len(),
            final(self).rows() == old(self).rows(),
            final(self).scans_ltr() == old(self).scans_ltr(),
    {
        let mut band = VirtualBox::new(
            offset,
            virtual_width,
            self.height,
            self.pixels.as_mut_slice(),
            picks,
            self.ltr,
        );
        band.tick();
    }

    /// Resolves the bands of the chunks from column `first` on, left to
    /// right.
    fn resolve_chunks(&mut self, first: usize, picks: &[Vec<u8>])
        ensures
            final(self).cells() == chunks_pass(
                old(self).cells(),
                grid_of(picks@),
                old(self).rows(),
                old(self).scans_ltr(),
                first as int,
                chunk_count(old(self).cells().len() as int, first as int),
            ),
            final(self).cells().len() == old(self).cells().len(),
            final(self).rows() == old(self).rows(),
            final(self).scans_ltr() == old(self).scans_ltr(),
    {
        let ghost g = self.cells();
        let ghost draws = grid_of(picks@);
        let ghost height = self.rows();
        let ghost ltr = self.scans_ltr();
        let width = self.pixels.len();
        let unit = VIRTUAL_COLUMNIZED_WIDTH;
        let mut start: usize = first;
        let ghost mut count: int = 0;
        while start < width
            invariant
                width == self.pixels@.len(),
                unit == VIRTUAL_COLUMNIZED_WIDTH,
                self.rows() == height,
                self.scans_ltr() == ltr,
                draws == grid_of(picks@),
                g.len() == width,
                count >= 0,
                start == first + 4 * unit * count || (start == width && first + 4 * unit * count
                    >= width),
                count == 0 || first + 4 * unit * (count - 1) < width,
                self.cells() == chunks_pass(g, draws, height, ltr, first as int, count),
            decreases width - start,
        {
            let len: usize = if width - start < 4 * unit {
                width - start
            } else {
                4 * unit
            };
            if len > unit {
                self.resolve_band(start + unit, 2 * unit, picks);
            }
            proof {
                count = count + 1;
            }
            if width - start <= 4 * unit {
                start = width;
            } else {
                start = start + 4 * unit;
            }
        }
        assert(count == chunk_count(width as int, first as int)) by {
            if count > 0 {
                let span = width - first - 1;
                assert(20 * (count - 1) <= span < 20 * count);
                assert(span / 20 == count - 1);
            }
        }
    }

    /// Clears the moved flag of every cell.
    fn clear_moved(&mut self)
        ensures
            final(self).cells() == cleared(old(self).cells()),
            final(self).rows() == old(self).rows(),
            final(self).scans_ltr() == old(self).scans_ltr(),
    {
        let ghost g = self.cells();
        let width = self.pixels.len();
        let mut x: usize = 0;
        while x < width
            invariant
                x <= width,
                width == self.pixels@.len(),
                g.len() == width,
                self.rows() == old(self).rows(),
                self.scans_ltr() == old(self).scans_ltr(),
                forall|i: int| 0 <= i < x ==> (#[trigger] self.pixels@[i])@ == cleared(g)[i],
                forall|i: int| x <= i < width ==> (#[trigger] self.pixels@[i])@ == g[i],
            decreases width - x,
        {
            let len = self.pixels[x].len();
            let mut y: usize = 0;
            while y < len
                invariant
                    y <= len,
                    x < width,
                    width == self.pixels@.len(),
                    g.len() == width,
                    len == g[x as int].len(),
                    len == self.pixels@[x as int]@.len(),
                    self.rows() == old(self).rows(),
                    self.scans_ltr() == old(self).scans_ltr(),
                    forall|i: int| 0 <= i < x ==> (#[trigger] self.pixels@[i])@ == cleared(g)[i],
                    forall|i: int| x < i < width ==> (#[trigger] self.pixels@[i])@ == g[i],
                    forall|j: int|
                        0 <= j < y ==> #[trigger] self.pixels@[x as int]@[j] == cleared(
                            g,
                        )[x as int][j],
                    forall|j: int|
                        y <= j < len ==> #[trigger] self.pixels@[x as int]@[j] == g[x as int][j],
                decreases len - y,
            {
                self.pixels[x][y].mark_is_moved(false);
                y += 1;
            }
            assert(self.pixels@[x as int]@ =~= cleared(g)[x as int]);
            x += 1;
        }
        assert(self.cells() =~= cleared(g));
    }

    /// The movement pass in one band: every cell of the grid is visited once,
    /// rows from the bottom up, with one draw for each cell in `picks`. At
    /// the end no cell is flagged.
    pub fn exec_pixels_sweep(&mut self, picks: &[Vec<u8>])
        ensures
            final(self).cells() == sweep(
                old(self).cells(),
                grid_of(picks@),
                old(self).rows(),
                old(self).scans_ltr(),
            ),
            final(self).rows() == old(self).rows(),
            final(self).scans_ltr() == old(self).scans_ltr(),
    {
        let width = self.pixels.len();
        self.resolve_band(0, width, picks);
        self.clear_moved();
    }

    /// The movement pass with the band offset `offset` and one draw for each
    /// cell in `picks`. A grid of at most four units is resolved as one
    /// band. A wider one is resolved in two phases of bands, so that what
    /// lies at a seam of the first lies inside a band of the second; the
    /// bands of a phase share no column. At the end no cell is flagged.
    pub fn exec_pixels_movement(&mut self, offset: usize, picks: &[Vec<u8>])
        requires
            1 <= offset <= 2 * VIRTUAL_COLUMNIZED_WIDTH,
        ensures
            final(self).cells() == movement(
                old(self).cells(),
                grid_of(picks@),
                old(self).rows(),
                old(self).scans_ltr(),
                offset as int,
            ),
            final(self).rows() == old(self).rows(),
            final(self).scans_ltr() == old(self).scans_ltr(),
    {
        let width = self.pixels.len();
        let unit = VIRTUAL_COLUMNIZED_WIDTH;
        if width <= unit * 4 {
            self.exec_pixels_sweep(picks);
        } else {
            self.resolve_band(0, offset, picks);
            self.resolve_chunks(offset + unit, picks);
            self.resolve_band(offset, 2 * unit, picks);
            self.resolve_chunks(offset + 3 * unit, picks);
            self.clear_moved();
        }
    }

    /// One tick with the randomness given: the interaction and update pass,
    /// then the movement pass with the band offset `offset` and the draws
    /// `picks`; then the scan direction flips.
    pub fn tick_with(&mut self, offset: usize, picks: &[Vec<u8>])
        requires
            1 <= offset <= 2 * VIRTUAL_COLUMNIZED_WIDTH,
        ensures
            final(self).cells() == ticked(
                old(self).cells(),
                grid_of(picks@),
                old(self).rows(),
                old(self).scans_ltr(),
                offset as int,
            ),
            final(self).rows() == old(self).rows(),
            final(self).scans_ltr() == !old(self).scans_ltr(),
    {
        self.exec_pixels_interaction();
        self.exec_pixels_movement(offset, picks);
        self.ltr = !self.ltr;
    }

    /// One tick with the randomness given and the movement pass in one
    /// band: the interaction and update pass, then the sweep with the draws
    /// `picks`; then the scan direction flips.
    pub fn tick_sequential_with(&mut self, picks: &[Vec<u8>])
        ensures
            final(self).cells() == ticked_in_one(
                old(self).cells(),
                grid_of(picks@),
                old(self).rows(),
                old(self).scans_ltr(),
            ),
            final(self).rows() == old(self).rows(),
            final(self).scans_ltr() == !old(self).scans_ltr(),
    {
        self.exec_pixels_interaction();
        self.exec_pixels_sweep(picks);
        self.ltr = !self.ltr;
    }

    /// Draws one number below `PICK_BOUND` for each cell of the grid.
    pub fn draw_picks(&mut self) -> (picks: Vec<Vec<u8>>)
        ensures
            final(self).cells() == old(self).cells(),
            final(self).rows() == old(self).rows(),
            final(self).scans_ltr() == old(self).scans_ltr(),
            picks@.len() == old(self).cells().len(),
            forall|x: int|
                0 <= x < picks@.len() ==> (#[trigger] picks@[x])@.len() == old(self).cells()[x].len(),
            forall|x: int, y: int|
                0 <= x < picks@.len() && 0 <= y < picks@[x]@.len() ==> #[trigger] picks@[x]@[y]
                    < PICK_BOUND,
    {
        let width = self.pixels.len();
        let mut picks: Vec<Vec<u8>> = Vec::new();
        let mut x: usize = 0;
        while x < width
            invariant
                x <= width,
                width == self.pixels@.len(),
                self.pixels@ == old(self).pixels@,
                self.height == old(self).height,
                self.ltr == old(self).ltr,
                picks@.len() == x,
                forall|i: int|
                    0 <= i < x ==> (#[trigger] picks@[i])@.len() == self.pixels@[i]@.len(),
                forall|i: int, j: int|
                    0 <= i < x && 0 <= j < picks@[i]@.len() ==> #[trigger] picks@[i]@[j]
                        < PICK_BOUND,
            decreases width - x,
        {
            let len = self.pixels[x].len();
            let mut column: Vec<u8> = Vec::new();
            let mut y: usize = 0;
            while y < len
                invariant
                    y <= len,
                    self.pixels@ == old(self).pixels@,
                    self.height == old(self).height,
                    self.ltr == old(self).ltr,
                    column@.len() == y,
                    forall|j: int| 0 <= j < y ==> #[trigger] column@[j] < PICK_BOUND,
                decreases len - y,
            {
                let pick = self.rng.index_below(PICK_BOUND);
                column.push(pick as u8);
                y += 1;
            }
            picks.push(column);
            x += 1;
        }
        picks
    }

    /// Advances the simulation by one step. All randomness of the step is
    /// drawn before anything moves: the band offset, if the grid is wide
    /// enough to be split into bands, and one number for each cell.
    pub fn tick(&mut self)
        ensures
            exists|offset: int, picks: Picks|
                1 <= offset <= 2 * unit() && final(self).cells() == #[trigger] ticked(
                    old(self).cells(),
                    picks,
                    old(self).rows(),
                    old(self).scans_ltr(),
                    offset,
                ),
            final(self).rows() == old(self).rows(),
            final(self).scans_ltr() == !old(self).scans_ltr(),
    {
        let offset = if self.pixels.len() > 4 * VIRTUAL_COLUMNIZED_WIDTH {
            self.rng.in_range(1, 2 * VIRTUAL_COLUMNIZED_WIDTH)
        } else {
            1
        };
        let picks = self.draw_picks();
        self.tick_with(offset, picks.as_slice());
        assert(self.cells() == ticked(
            old(self).cells(),
            grid_of(picks@),
            old(self).rows(),
            old(self).scans_ltr(),
            offset as int,
        ));
    }

    /// Where a cell at position `pos` of the new axis comes from on the old
    /// one, if that is a position at all.
    fn source_of(pos: usize, old: usize, new: usize) -> (r: Option<usize>)
        ensures
            match r {
                Some(from) => from == pos - recentre(old as int, new as int),
                None => pos - recentre(old as int, new as int) < 0 || pos - recentre(
                    old as int,
                    new as int,
                ) > usize::MAX,
            },
    {
        if new >= old {
            let shift: usize = (new - old) / 2;
            if pos >= shift {
                Some(pos - shift)
            } else {
                None
            }
        } else {
            let shift: usize = (old - new) / 2;
            pos.checked_add(shift)
        }
    }

    /// Gives the grid `width` columns and `height` rows and keeps its
    /// content centred: every cell moves by half the change of each
    /// dimension, rounded toward zero. Cells that fall outside are dropped,
    /// new cells are empty, and no cell counts as moved.
    pub fn resize(&mut self, width: usize, height: usize)
        ensures
            final(self).cells() == resized(
                old(self).cells(),
                old(self).rows(),
                width as int,
                height as int,
            ),
            final(self).rows() == height,
            final(self).scans_ltr() == old(self).scans_ltr(),
    {
        let ghost g = self.cells();
        let ghost rows = self.rows();
        let old_width = self.pixels.len();
        let old_height = self.height;
        let mut pixels: Vec<Vec<PixelContainer>> = Vec::new();
        let mut x: usize = 0;
        while x < width
            invariant
                x <= width,
                *self == *old(self),
                self.cells() == g,
                self.rows() == rows,
                old_width == g.len(),
                old_height == rows,
                pixels@.len() == x,
                forall|i: int|
                    0 <= i < x ==> (#[trigger] pixels@[i])@ == resized(
                        g,
                        rows,
                        width as int,
                        height as int,
                    )[i],
            decreases width - x,
        {
            let from_x = Self::source_of(x, old_width, width);
            let mut column: Vec<PixelContainer> = Vec::new();
            let mut y: usize = 0;
            while y < height
                invariant
                    y <= height,
                    x < width,
                    *self == *old(self),
                    self.cells() == g,
                    self.rows() == rows,
                    old_width == g.len(),
                    old_height == rows,
                    match from_x {
                        Some(from) => from == x - recentre(old_width as int, width as int),
                        None => x - recentre(old_width as int, width as int) < 0 || x - recentre(
                            old_width as int,
                            width as int,
                        ) > usize::MAX,
                    },
                    column@.len() == y,
                    forall|j: int|
                        0 <= j < y ==> #[trigger] column@[j] == resized(
                            g,
                            rows,
                            width as int,
                            height as int,
                        )[x as int][j],
                decreases height - y,
            {
                let from_y = Self::source_of(y, old_height, height);
                let kept = match (from_x, from_y) {
                    (Some(i), Some(j)) => match self.get_pixel((i, j)) {
                        Some(cell) => Some(cell.pixel()),
                        None => None,
                    },
                    _ => None,
                };
                let cell = match kept {
                    Some(pixel) => PixelContainer::new(pixel),
                    None => PixelContainer::default(),
                };
                column.push(cell);
                y += 1;
            }
            assert(column@ =~= resized(g, rows, width as int, height as int)[x as int]);
            pixels.push(column);
            x += 1;
        }
        assert(grid_of(pixels@) =~= resized(g, rows, width as int, height as int));
        self.pixels = pixels;
        self.height = height;
    }

    /// Advances the simulation by one step whose movement pass takes the
    /// whole grid as one band. One number is drawn for each cell before
    /// anything moves.
    pub fn tick_sequential(&mut self)
        ensures
            exists|picks: Picks|
                final(self).cells() == #[trigger] ticked_in_one(
                    old(self).cells(),
                    picks,
                    old(self).rows(),
                    old(self).scans_ltr(),
                ),
            final(self).rows() == old(self).rows(),
            final(self).scans_ltr() == !old(self).scans_ltr(),
    {
        let picks = self.draw_picks();
        self.tick_sequential_with(picks.as_slice());
        assert(self.cells() == ticked_in_one(
            old(self).cells(),
            grid_of(picks@),
            old(self).rows(),
            old(self).scans_ltr(),
        ));
    }
}

} // verus!
