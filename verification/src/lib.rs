//! Verified core of a Collatz trajectory grapher.
//!
//! The library computes Collatz (3n+1) trajectories for a half-open range of
//! starting values, aggregates them into a dataset with its extrema, and lays
//! out a chart description (panels, axis ranges, captions, series colors)
//! that a drawing backend can render unchanged.

pub mod chart;
pub mod dataset;
pub mod error;
pub mod sequence;
pub mod text;
