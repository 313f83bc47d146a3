//! The coordinate and compositing core of an SVG renderer.
//!
//! Two things are decided here and proved: how a viewport with an optional
//! `viewBox` is established (`viewport`), and how the children of an
//! `feMerge` filter primitive are folded into one surface (`filters`).
//! Nothing in this crate rasterises. Each entry point returns the operations
//! that a drawing back end is to perform, in order, and its contract says
//! exactly which operations those are.

pub mod aspect_ratio;
pub mod attributes;
pub mod error;
pub mod filters;
pub mod node;
pub mod ratio;
pub mod rect;
pub mod viewport;
