//! The atomic drawable element: one styled character at one grid position.

use crate::interfaces::geometry::{clamp_u32, DiscreteCoord};
use crate::interfaces::rendering::RenderChar;
use crate::interfaces::styling::RenderStyle;
use vstd::prelude::*;

verus! {

/// One styled character at one grid position.
#[derive(Debug)]
pub struct Pixel {
    pub content: RenderChar,
    pub position: DiscreteCoord,
    /// A protected unit survives pruning even where its glyph is blank.
    pub protected: bool,
}

impl Pixel {
    pub fn new(content: RenderChar, position: DiscreteCoord, protected: bool) -> (r: Self)
        ensures
            r == (Pixel { content, position, protected }),
    {
        Pixel { content, position, protected }
    }

    pub fn new_with_char(content: char, position: DiscreteCoord, protected: bool) -> (r: Self)
        ensures
            r == (Pixel { content: RenderChar { ch: content, style: RenderStyle::Plain }, position, protected }),
    {
        Pixel::new(RenderChar::new_plain(content), position, protected)
    }

    /// This unit moved by `(dx, dy)`, each component clamped to the range of `u32`.
    pub open spec fn shifted(self, dx: int, dy: int) -> Pixel {
        Pixel {
            content: self.content,
            position: DiscreteCoord {
                x: clamp_u32(self.position.x + dx),
                y: clamp_u32(self.position.y + dy),
            },
            protected: self.protected,
        }
    }

    /// This unit with its protection flag set to `flag`.
    pub open spec fn flagged(self, flag: bool) -> Pixel {
        Pixel { content: self.content, position: self.position, protected: flag }
    }

    /// Whether pruning keeps this unit: its glyph is not blank, or it is protected.
    pub open spec fn survives_pruning(self) -> bool {
        self.content.ch != RenderChar::blank_spec().ch || self.protected
    }
}

impl Clone for Pixel {
    fn clone(&self) -> (r: Self)
        ensures
            r == *self,
    {
        Pixel {
            content: self.content.clone(),
            position: self.position,
            protected: self.protected,
        }
    }
}

} // verus!
