//! Operator console logic for a networked oscilloscope and signal generator:
//! the coordinate transform from sample space to the drawing surface, the
//! grid and overlay layers of a frame as a list of paint operations, and the
//! typed signals that panels send up to the root coordinator.

pub mod acquire;
pub mod application;
pub mod generator;
pub mod graph;
pub mod grid;
pub mod level;
pub mod paint;
pub mod palette;
pub mod scales;
pub mod trigger;
