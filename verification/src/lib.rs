//! Core geometry and series engine for a two-dimensional chart surface.
//!
//! The crate maps abstract data coordinates onto a visual coordinate space,
//! partitions the surface into nested regions for axes, legends and the plot
//! area, and computes per-point values for data series that may be stacked on
//! top of one another. All spatial quantities are exact: rectangle corners
//! live on an integer grid and points are exact rationals, so every projection
//! round-trips without loss.

pub mod bounds;
pub mod chart;
pub mod colours;
pub mod layout;
pub mod projection;
pub mod ratio;
pub mod series;
