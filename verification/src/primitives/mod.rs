//! Ready-made drawables: boxes and text.

pub mod shape;
pub mod text;
