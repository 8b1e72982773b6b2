//! A list of units is itself a drawable, and can be restyled as a whole.

use crate::interfaces::geometry::DiscreteCoord;
use crate::interfaces::pixels::Pixel;
use crate::interfaces::rendering::{
    bounding_corners, copy_units, upper_corner, RenderChar, Renderable,
};
use crate::interfaces::styling::{styled, RenderStyle, Stylable};
use vstd::prelude::*;

verus! {

impl Renderable for Vec<Pixel> {
    open spec fn units(&self) -> Seq<Pixel> {
        self@
    }

    /// One more than the largest column and row in use, clamped at `u32::MAX`;
    /// the origin for an empty list.
    open spec fn size(&self) -> DiscreteCoord {
        if self@.len() == 0 {
            DiscreteCoord { x: 0, y: 0 }
        } else {
            upper_corner(self@).plus(DiscreteCoord { x: 1, y: 1 })
        }
    }

    fn pixels(&self) -> (r: Vec<Pixel>) {
        copy_units(self)
    }

    fn dim(&self) -> (r: DiscreteCoord) {
        if self.is_empty() {
            DiscreteCoord::origin()
        } else {
            let (_, hi) = bounding_corners(self);
            DiscreteCoord::new(hi.x.saturating_add(1), hi.y.saturating_add(1))
        }
    }
}

impl Stylable for Vec<Pixel> {
    fn style(&self, style_seq: RenderStyle) -> (r: Vec<Pixel>) {
        let mut out: Vec<Pixel> = Vec::new();
        let mut i: usize = 0;
        while i < self.len()
            invariant
                i <= self.len(),
                out@ == styled(self@.take(i as int), style_seq),
            decreases self.len() - i,
        {
            let x = &self[i];
            let styled_content = match &style_seq {
                RenderStyle::Styled(seq, other) => RenderChar::new(
                    x.content.ch,
                    RenderStyle::Styled(seq.clone(), other.clone()),
                ),
                _ => x.content.clone(),
            };
            out.push(Pixel::new(styled_content, x.position, x.protected));
            i += 1;
            assert(out@ =~= styled(self@.take(i as int), style_seq));
        }
        assert(self@.take(i as int) =~= self@);
        out
    }
}

} // verus!
