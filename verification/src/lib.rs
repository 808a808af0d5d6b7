//! Verified core of a render-box layout engine.
//!
//! Render boxes are the leaves of a layout tree: the smallest units of visual
//! content that a flow engine positions and a paint pass draws.  This crate
//! holds the box data model and its three central algorithms: splitting a text
//! box to a target line width, measuring minimum and preferred content widths,
//! and emitting paint primitives for a positioned box against a dirty
//! rectangle.

pub mod boxes;
pub mod context;
pub mod display_list;
pub mod geometry;
pub mod image;
pub mod laws;
pub mod split;
pub mod style;
pub mod text_run;

pub use boxes::RenderBox;
pub use boxes::SplitBoxResult;
