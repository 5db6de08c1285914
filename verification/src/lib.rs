//! Layout of a historical timeline of console lineages.
//!
//! Every coordinate is an integer number of ticks; see [`axis`] for the unit.

pub mod axis;
pub mod color;
pub mod geometry;
pub mod model;
pub mod text;
pub mod timeline;
pub mod tooltip;
