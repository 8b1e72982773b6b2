//! Composition and rendering of styled characters on a fixed-width terminal grid.
//!
//! Drawables produce positioned, styled units; the engine places and paints them
//! into a buffer of styled characters and turns that buffer into terminal text.

pub mod engine;
pub mod interfaces;
pub mod ioopts;
pub mod prelude;
pub mod primitives;
pub mod utils;
