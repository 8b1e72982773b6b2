//! Masks: sets of grid positions that a layer covers.

use crate::interfaces::geometry::DiscreteCoord;
use vstd::prelude::*;

verus! {

/// One position of a mask, switched on or off.
pub struct MaskPixel {
    pub masked: bool,
    pub pos: DiscreteCoord,
}

impl MaskPixel {
    /// A mask position that is switched on.
    pub fn new(pos: DiscreteCoord) -> (r: Self)
        ensures
            r == (MaskPixel { masked: true, pos }),
    {
        MaskPixel { masked: true, pos }
    }
}

impl Clone for MaskPixel {
    fn clone(&self) -> (r: Self)
        ensures
            r == *self,
    {
        MaskPixel { masked: self.masked, pos: self.pos }
    }
}

/// A mask: its positions, in order.
pub type Mask = Vec<MaskPixel>;

/// Whatever can be read as a mask.
pub trait Maskable {
    /// The positions of the mask, in order.
    spec fn mask_positions(&self) -> Seq<MaskPixel>;

    fn mask(&self) -> (r: Vec<MaskPixel>)
        ensures
            r@ == self.mask_positions(),
    ;
}

impl Maskable for MaskPixel {
    open spec fn mask_positions(&self) -> Seq<MaskPixel> {
        seq![*self]
    }

    fn mask(&self) -> (r: Vec<MaskPixel>) {
        let mut out: Vec<MaskPixel> = Vec::new();
        out.push(self.clone());
        out
    }
}

impl Maskable for Mask {
    open spec fn mask_positions(&self) -> Seq<MaskPixel> {
        self@
    }

    fn mask(&self) -> (r: Vec<MaskPixel>) {
        let mut out: Vec<MaskPixel> = Vec::new();
        let mut i: usize = 0;
        while i < self.len()
            invariant
                i <= self.len(),
                out@ == self@.take(i as int),
            decreases self.len() - i,
        {
            out.push(self[i].clone());
            i += 1;
            assert(out@ =~= self@.take(i as int));
        }
        assert(self@.take(i as int) =~= self@);
        out
    }
}

/// A layer of a composition, with the mask that cuts it out, if any.
pub struct Layer {
    pub mask: Option<Mask>,
}

} // verus!
