//! The names that most users of the library need, in one place.

pub use crate::engine::OvertureRenderEngine;
pub use crate::interfaces::containers::RenderableList;
pub use crate::interfaces::geometry::DiscreteCoord;
pub use crate::interfaces::geometry::RenderPlacementConfig;
pub use crate::interfaces::geometry::Translation;
pub use crate::interfaces::pixels::Pixel;
pub use crate::interfaces::rendering::RenderChar;
pub use crate::interfaces::rendering::Renderable;
pub use crate::interfaces::styling::RenderStyle;
pub use crate::interfaces::styling::Stylable;
pub use crate::ioopts::ansi::ANSISequence;
pub use crate::primitives;
