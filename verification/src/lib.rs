//! A falling-sand cellular automaton: a grid of material cells that fall,
//! flow, diffuse and react once per discrete tick.
//!
//! A tick has two passes. In the first every cell meets its four orthogonal
//! neighbours and may change phase; in the second cells trade places with
//! their neighbours according to category and density. What each pass does
//! is written down as a function on grids in [`sandbox::interaction`] and
//! [`sandbox::movement`], the executable passes are proved to compute those
//! functions, and [`laws`] holds what follows for every grid.
//!
//! All randomness of a tick is drawn before anything moves: one offset for
//! the seams of the bands, and one number for each cell, which selects the
//! order in which the cell tries its directions. A tick is therefore a
//! function of the grid and its draws.

pub mod laws;
pub mod pixel;
pub mod random;
pub mod sandbox;
