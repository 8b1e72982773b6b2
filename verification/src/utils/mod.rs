//! Helpers for inspecting values while debugging.

pub mod debug;
