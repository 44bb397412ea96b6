//! Core of an animated noise display: a grid of random values is sampled
//! through a time-varying swirl inside a small square at the centre of the
//! frame, and every other pixel is refilled with fresh random values on each
//! frame.
//!
//! The crate holds everything that is integer arithmetic: the frame geometry,
//! the truncating wrap of sample coordinates, the noise grid, the assembly of
//! a frame and the time counter. The trigonometry of the swirl is evaluated by
//! the caller, who hands in the truncated sample coordinates of one frame.

pub mod driver;
pub mod frame;
pub mod geometry;
pub mod noise;
pub mod random;
pub mod renderer;
pub mod swirl;
pub mod wrap;
