//! The sequential resolver of one band of columns.

use crate::pixel::PixelFundamental;
use crate::sandbox::grid::{cell_mut, grid_of, pick_at, swap_cells};
use crate::sandbox::movement::{band_pass, relocate, row_pass, rows_pass, step, Scan};
use crate::sandbox::{Coordinate, PixelContainer, SandboxControl};
use vstd::prelude::*;

verus! {

/// A window on some columns of a grid, of which the columns
/// `offset .. offset + virtual_width` are the band to resolve. The columns
/// around the band are there to move into: a cell of the band may leave it,
/// but never the window.
pub struct VirtualBox<'a> {
    pub offset: usize,
    pub virtual_width: usize,
    pub height: usize,
    pub pixels: &'a mut [Vec<PixelContainer>],
    /// One draw for each cell of the window, laid out as `pixels` is.
    pub picks: &'a [Vec<u8>],
    pub ltr: bool,
}

impl SandboxControl for VirtualBox<'_> {
    open spec fn columns(&self) -> Seq<Vec<PixelContainer>> {
        self.pixels@
    }

    open spec fn rows(&self) -> int {
        self.height as int
    }

    fn matrix(&self) -> (m: &[Vec<PixelContainer>]) {
        &*self.pixels
    }

    fn matrix_mut(&mut self) -> (m: &mut [Vec<PixelContainer>])
        ensures
            final(self).same_frame(old(self)),
            final(final(self).pixels)@ == final(old(self).pixels)@,
    {
        &mut *self.pixels
    }

    fn get_pixel_mut(&mut self, cord: Coordinate) -> (r: Option<&mut PixelContainer>)
        ensures
            final(self).same_frame(old(self)),
            final(final(self).pixels)@ == final(old(self).pixels)@,
    {
        cell_mut(self.pixels, cord)
    }

    fn swap_pixels(&mut self, cord1: Coordinate, cord2: Coordinate)
        ensures
            final(self).same_frame(old(self)),
            final(final(self).pixels)@ == final(old(self).pixels)@,
    {
        swap_cells(self.pixels, cord1, cord2);
    }

    fn width(&self) -> (w: usize) {
        self.pixels.len()
    }

    fn height(&self) -> (h: usize) {
        self.height
    }
}

impl<'a> VirtualBox<'a> {
    /// The band, unless it is empty, lies within the window.
    pub open spec fn wf(&self) -> bool {
        self.virtual_width > 0 ==> self.offset + self.virtual_width <= self.pixels@.len()
    }

    /// The width of a band that is to start at column `offset` of `total`
    /// columns and to be `width` wide: `width` if that fits, else what
    /// there is from `offset` on.
    pub open spec fn fitted(total: int, offset: int, width: int) -> int {
        if offset + width <= total {
            width
        } else if offset <= total {
            total - offset
        } else {
            0
        }
    }

    /// The cells that a pass visits, and their order.
    pub open spec fn scan(&self) -> Scan {
        Scan {
            height: self.height as int,
            offset: self.offset as int,
            width: self.virtual_width as int,
            ltr: self.ltr,
        }
    }

    /// Everything but the cells is as in `other`.
    pub open spec fn same_frame(&self, other: &Self) -> bool {
        &&& self.offset == other.offset
        &&& self.virtual_width == other.virtual_width
        &&& self.height == other.height
        &&& self.picks@ == other.picks@
        &&& self.ltr == other.ltr
    }

    /// A window on `pixels` whose band starts at column `offset` and is
    /// `virtual_width` columns wide, or as wide as the window allows.
    pub fn new(
        offset: usize,
        virtual_width: usize,
        height: usize,
        pixels: &'a mut [Vec<PixelContainer>],
        picks: &'a [Vec<u8>],
        ltr: bool,
    ) -> (b: Self)
        ensures
            b.wf(),
            b.offset == offset,
            b.virtual_width == Self::fitted(
                old(pixels)@.len() as int,
                offset as int,
                virtual_width as int,
            ),
            b.height == height,
            b.pixels@ == old(pixels)@,
            final(b.pixels)@ == final(pixels)@,
            b.picks@ == picks@,
            b.ltr == ltr,
    {
        let room: usize = if offset <= pixels.len() {
            pixels.len() - offset
        } else {
            0
        };
        let virtual_width: usize = if virtual_width < room {
            virtual_width
        } else {
            room
        };
        VirtualBox { offset, virtual_width, height, pixels, picks, ltr }
    }

    /// The draw that belongs to the cell at `cord`.
    pub fn pick(&self, cord: Coordinate) -> (r: usize)
        ensures
            r == pick_at(grid_of(self.picks@), cord.0 as int, cord.1 as int),
    {
        if cord.0 < self.picks.len() {
            if cord.1 < self.picks[cord.0].len() {
                return self.picks[cord.0][cord.1] as usize;
            }
        }
        0
    }

    /// Visits the cell at `cord`: unless it is missing, empty or has moved
    /// already, its material chooses a direction, and the cell moves there.
    pub fn move_pixel(&mut self, cord: Coordinate)
        ensures
            grid_of(final(self).pixels@) == step(
                grid_of(old(self).pixels@),
                old(self).height as int,
                cord.0 as int,
                cord.1 as int,
                pick_at(grid_of(old(self).picks@), cord.0 as int, cord.1 as int),
            ),
            final(self).pixels@.len() == old(self).pixels@.len(),
            final(final(self).pixels)@ == final(old(self).pixels)@,
            final(self).same_frame(old(self)),
    {
        let cell = match self.get_pixel(cord) {
            Some(p) => *p,
            None => {
                return ;
            },
        };
        if cell.pixel().pixel_type().is_void() {
            return ;
        }
        if cell.is_moved() {
            return ;
        }
        let adjacent = self.get_adjacent_pixels(cord);
        let pick = self.pick(cord);
        if let Some(dir) = cell.pixel().tick_move(&adjacent, pick) {
            if let Some(new_cord) = self.get_neighbour_coordinates(cord, dir) {
                relocate(self.pixels, cord, new_cord);
            }
        }
    }

    /// Resolves the band: one visit to each of its cells, rows from the
    /// bottom up, columns in the direction of `ltr`.
    pub fn tick(&mut self)
        requires
            old(self).wf(),
        ensures
            grid_of(final(self).pixels@) == band_pass(
                grid_of(old(self).pixels@),
                grid_of(old(self).picks@),
                old(self).scan(),
            ),
            final(self).pixels@.len() == old(self).pixels@.len(),
            final(final(self).pixels)@ == final(old(self).pixels)@,
            final(self).same_frame(old(self)),
    {
        let ghost start = grid_of(self.pixels@);
        let ghost picks = grid_of(self.picks@);
        let ghost scan = self.scan();
        let width = self.pixels.len();
        let mut rows: usize = 0;
        while rows < self.height
            invariant
                rows <= self.height,
                self.wf(),
                self.same_frame(old(self)),
                self.scan() == scan,
                picks == grid_of(self.picks@),
                self.pixels@.len() == old(self).pixels@.len(),
                self.pixels@.len() == width,
                final(self.pixels)@ == final(old(self).pixels)@,
                grid_of(self.pixels@) == rows_pass(start, picks, scan, rows as int),
            decreases self.height - rows,
        {
            let y: usize = self.height - 1 - rows;
            let ghost before = grid_of(self.pixels@);
            let mut i: usize = 0;
            while i < self.virtual_width
                invariant
                    i <= self.virtual_width,
                    y == self.height - 1 - rows,
                    rows < self.height,
                    self.wf(),
                    self.same_frame(old(self)),
                    self.scan() == scan,
                    picks == grid_of(self.picks@),
                    self.pixels@.len() == old(self).pixels@.len(),
                    self.pixels@.len() == width,
                    final(self.pixels)@ == final(old(self).pixels)@,
                    grid_of(self.pixels@) == row_pass(before, picks, scan, y as int, i as int),
                decreases self.virtual_width - i,
            {
                let x: usize = if self.ltr {
                    self.offset + i
                } else {
                    self.offset + self.virtual_width - 1 - i
                };
                self.move_pixel((x, y));
                i += 1;
            }
            rows += 1;
        }
    }
}

} // verus!
