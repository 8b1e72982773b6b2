//! The data model and the capability contracts shared by every drawable.

pub mod containers;
pub mod geometry;
pub mod layers;
pub mod pixels;
pub mod rasterization;
pub mod rendering;
pub mod styling;
