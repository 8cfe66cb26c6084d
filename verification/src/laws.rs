//! What holds of every grid: the laws of the simulation, each stated over
//! the functions that say what a pass does to a grid.

pub mod bands;
pub mod boiling;
pub mod conservation;
pub mod descent;
pub mod determinism;
pub mod locality;
pub mod once;
pub mod resizing;
pub mod rest;
pub mod shape;
pub mod stillness;
pub mod windows;
