//! Terminal output tables: escape sequences and box-drawing glyphs.

pub mod ansi;
pub mod box_drawing;
