//! The grid of cells and the operations that read and rearrange it.

pub mod grid;
pub mod interaction;
pub mod movement;
pub mod sandbox;
pub mod virtualbox;

pub use self::sandbox::Sandbox;

use crate::pixel::{Direction, Pixel};
use crate::pixel::void::Void;
use self::grid::{
    adjacent, cell_at, cell_mut, grid_of, neighbour, neighbour_cell, swap_cells, swapped, with_cell,
};
use vstd::prelude::*;

verus! {

/// A cell's position: column, then row. Rows are numbered from the top.
pub type Coordinate = (usize, usize);

/// One cell of the grid: a material and the flag that says whether the cell
/// has taken part in a swap during the current movement pass.
#[derive(Debug, Clone, Copy, PartialEq, Eq, Structural)]
pub struct PixelContainer {
    pub pixel: Pixel,
    pub is_moved: bool,
}

impl Default for PixelContainer {
    fn default() -> (r: Self)
        ensures
            r == Self::empty(),
    {
        PixelContainer { pixel: Pixel::default(), is_moved: false }
    }
}

impl PixelContainer {
    /// The empty cell: an unlit void that has not moved.
    pub open spec fn empty() -> Self {
        PixelContainer { pixel: Pixel::Void(Void { burn: false }), is_moved: false }
    }

    /// A cell that holds `pixel` and has not moved.
    pub fn new(pixel: Pixel) -> (r: Self)
        ensures
            r == (PixelContainer { pixel, is_moved: false }),
    {
        PixelContainer { pixel, is_moved: false }
    }

    /// The material in the cell.
    pub fn pixel(&self) -> (r: Pixel)
        ensures
            r == self.pixel,
    {
        self.pixel
    }

    /// The material in the cell, for writing; the flag stays as it is.
    pub fn pixel_mut(&mut self) -> (r: &mut Pixel)
        ensures
            *r == old(self).pixel,
            *final(self) == (PixelContainer { pixel: *final(r), is_moved: old(self).is_moved }),
    {
        &mut self.pixel
    }

    /// Whether the cell has taken part in a swap in this movement pass.
    pub fn is_moved(&self) -> (r: bool)
        ensures
            r == self.is_moved,
    {
        self.is_moved
    }

    /// Sets the flag and leaves the material as it is.
    pub fn mark_is_moved(&mut self, flag: bool)
        ensures
            *final(self) == (PixelContainer { pixel: old(self).pixel, is_moved: flag }),
    {
        self.is_moved = flag;
    }
}

/// The eight neighbours of one cell, each absent where the grid ends.
#[derive(Debug, Clone, Copy, PartialEq, Eq, Structural)]
pub struct AdjacentPixels {
    pub top: Option<PixelContainer>,
    pub bottom: Option<PixelContainer>,
    pub left: Option<PixelContainer>,
    pub right: Option<PixelContainer>,
    pub top_left: Option<PixelContainer>,
    pub top_right: Option<PixelContainer>,
    pub bottom_left: Option<PixelContainer>,
    pub bottom_right: Option<PixelContainer>,
}

impl AdjacentPixels {
    /// The neighbour in direction `dir`.
    pub open spec fn spec_get(&self, dir: Direction) -> Option<PixelContainer> {
        match dir {
            Direction::Up => self.top,
            Direction::Down => self.bottom,
            Direction::Left => self.left,
            Direction::Right => self.right,
            Direction::UpLeft => self.top_left,
            Direction::UpRight => self.top_right,
            Direction::DownLeft => self.bottom_left,
            Direction::DownRight => self.bottom_right,
        }
    }

    /// The neighbour in direction `dir`.
    #[verifier::when_used_as_spec(spec_get)]
    pub fn get(&self, dir: Direction) -> (r: Option<PixelContainer>)
        ensures
            r == self.spec_get(dir),
    {
        match dir {
            Direction::Up => self.top,
            Direction::Down => self.bottom,
            Direction::Left => self.left,
            Direction::Right => self.right,
            Direction::UpLeft => self.top_left,
            Direction::UpRight => self.top_right,
            Direction::DownLeft => self.bottom_left,
            Direction::DownRight => self.bottom_right,
        }
    }
}

/// Bounds-checked access to a matrix of cells stored column by column.
///
/// An implementor says where its columns are and how tall it is; the lookups
/// and the swap are the same for all of them. Nothing here wraps around: a
/// coordinate or a neighbour outside the matrix is absent.
pub trait SandboxControl: Sized {
    /// The columns, as the implementor stores them.
    spec fn columns(&self) -> Seq<Vec<PixelContainer>>;

    /// The number of rows that neighbour lookups go by.
    spec fn rows(&self) -> int;

    /// The columns, for reading.
    fn matrix(&self) -> (m: &[Vec<PixelContainer>])
        ensures
            m@ == self.columns(),
    ;

    /// The columns, for writing. What the caller leaves in them is what the
    /// implementor then holds.
    fn matrix_mut(&mut self) -> (m: &mut [Vec<PixelContainer>])
        ensures
            m@ == old(self).columns(),
            final(self).columns() == final(m)@,
            final(self).rows() == old(self).rows(),
    ;

    /// The number of columns.
    fn width(&self) -> (w: usize)
        ensures
            w == self.columns().len(),
    ;

    /// The number of rows.
    fn height(&self) -> (h: usize)
        ensures
            h == self.rows(),
    ;

    /// The cell at `cord`, if the matrix has one there.
    fn get_pixel(&self, cord: Coordinate) -> (r: Option<&PixelContainer>)
        ensures
            match r {
                Some(p) => cell_at(grid_of(self.columns()), cord.0 as int, cord.1 as int) == Some(*p),
                None => cell_at(grid_of(self.columns()), cord.0 as int, cord.1 as int) is None,
            },
    {
        let m = self.matrix();
        if cord.0 < m.len() {
            let column = &m[cord.0];
            if cord.1 < column.len() {
                return Some(&column[cord.1]);
            }
        }
        None
    }

    /// True if `cord` lies within the width and the height.
    fn is_coordinate_in_bound(&self, cord: Coordinate) -> (r: bool)
        ensures
            r == (cord.0 < self.columns().len() && cord.1 < self.rows()),
    {
        cord.0 < self.width() && cord.1 < self.height()
    }

    /// The coordinate one step from `cord` in direction `dir`, absent where
    /// that step leaves the width or the height.
    fn get_neighbour_coordinates(&self, cord: Coordinate, dir: Direction) -> (r: Option<Coordinate>)
        ensures
            match r {
                Some(c) => neighbour(
                    self.columns().len() as int,
                    self.rows(),
                    cord.0 as int,
                    cord.1 as int,
                    dir,
                ) == Some((c.0 as int, c.1 as int)),
                None => neighbour(
                    self.columns().len() as int,
                    self.rows(),
                    cord.0 as int,
                    cord.1 as int,
                    dir,
                ) is None,
            },
    {
        let (x, y) = cord;
        let width = self.width();
        let height = self.height();
        if x >= width || y >= height {
            return None;
        }
        let is_not_on_top = y > 0;
        let is_not_on_bottom = y < height - 1;
        let is_not_on_left = x > 0;
        let is_not_on_right = x < width - 1;
        match dir {
            Direction::Up => if is_not_on_top { Some((x, y - 1)) } else { None },
            Direction::Down => if is_not_on_bottom { Some((x, y + 1)) } else { None },
            Direction::Left => if is_not_on_left { Some((x - 1, y)) } else { None },
            Direction::Right => if is_not_on_right { Some((x + 1, y)) } else { None },
            Direction::UpLeft => if is_not_on_top && is_not_on_left {
                Some((x - 1, y - 1))
            } else {
                None
            },
            Direction::UpRight => if is_not_on_top && is_not_on_right {
                Some((x + 1, y - 1))
            } else {
                None
            },
            Direction::DownLeft => if is_not_on_bottom && is_not_on_left {
                Some((x - 1, y + 1))
            } else {
                None
            },
            Direction::DownRight => if is_not_on_bottom && is_not_on_right {
                Some((x + 1, y + 1))
            } else {
                None
            },
        }
    }

    /// The cell at `cord` for writing. What the caller leaves in it is what
    /// the matrix then holds there; nothing else changes.
    fn get_pixel_mut(&mut self, cord: Coordinate) -> (r: Option<&mut PixelContainer>)
        ensures
            match r {
                Some(p) => cell_at(grid_of(old(self).columns()), cord.0 as int, cord.1 as int)
                    == Some(*p) && grid_of(final(self).columns()) == with_cell(
                    grid_of(old(self).columns()),
                    cord.0 as int,
                    cord.1 as int,
                    *final(p),
                ),
                None => cell_at(grid_of(old(self).columns()), cord.0 as int, cord.1 as int) is None
                    && grid_of(final(self).columns()) == grid_of(old(self).columns()),
            },
            final(self).columns().len() == old(self).columns().len(),
            final(self).rows() == old(self).rows(),
    {
        cell_mut(self.matrix_mut(), cord)
    }

    /// The neighbour of `cord` in direction `dir`: its coordinate and its
    /// cell.
    fn get_neighbour_pixel(&self, cord: Coordinate, dir: Direction) -> (r: Option<
        (Coordinate, &PixelContainer),
    >)
        ensures
            match r {
                Some((c, p)) => neighbour(
                    self.columns().len() as int,
                    self.rows(),
                    cord.0 as int,
                    cord.1 as int,
                    dir,
                ) == Some((c.0 as int, c.1 as int)) && cell_at(
                    grid_of(self.columns()),
                    c.0 as int,
                    c.1 as int,
                ) == Some(*p),
                None => neighbour_cell(
                    grid_of(self.columns()),
                    self.rows(),
                    cord.0 as int,
                    cord.1 as int,
                    dir,
                ) is None,
            },
    {
        match self.get_neighbour_coordinates(cord, dir) {
            Some(new_cord) => match self.get_pixel(new_cord) {
                Some(p) => Some((new_cord, p)),
                None => None,
            },
            None => None,
        }
    }

    /// The eight neighbours of `cord`.
    fn get_adjacent_pixels(&self, cord: Coordinate) -> (r: AdjacentPixels)
        ensures
            r == adjacent(grid_of(self.columns()), self.rows(), cord.0 as int, cord.1 as int),
    {
        AdjacentPixels {
            top: self.neighbour_value(cord, Direction::Up),
            bottom: self.neighbour_value(cord, Direction::Down),
            left: self.neighbour_value(cord, Direction::Left),
            right: self.neighbour_value(cord, Direction::Right),
            top_left: self.neighbour_value(cord, Direction::UpLeft),
            top_right: self.neighbour_value(cord, Direction::UpRight),
            bottom_left: self.neighbour_value(cord, Direction::DownLeft),
            bottom_right: self.neighbour_value(cord, Direction::DownRight),
        }
    }

    /// A copy of the neighbouring cell of `cord` in direction `dir`.
    fn neighbour_value(&self, cord: Coordinate, dir: Direction) -> (r: Option<PixelContainer>)
        ensures
            r == neighbour_cell(
                grid_of(self.columns()),
                self.rows(),
                cord.0 as int,
                cord.1 as int,
                dir,
            ),
    {
        match self.get_neighbour_pixel(cord, dir) {
            Some((_, p)) => Some(*p),
            None => None,
        }
    }

    /// Exchanges the whole contents of two cells, material and flag, without
    /// asking whether the move is legal. Does nothing unless both exist.
    fn swap_pixels(&mut self, cord1: Coordinate, cord2: Coordinate)
        ensures
            grid_of(final(self).columns()) == swapped(
                grid_of(old(self).columns()),
                (cord1.0 as int, cord1.1 as int),
                (cord2.0 as int, cord2.1 as int),
            ),
            final(self).columns().len() == old(self).columns().len(),
            final(self).rows() == old(self).rows(),
    {
        swap_cells(self.matrix_mut(), cord1, cord2);
    }
}

} // verus!
