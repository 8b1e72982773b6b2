//! Style chains: the stack of terminal attributes that a character carries.

use crate::interfaces::pixels::Pixel;
use crate::interfaces::rendering::{RenderChar, Renderable};
use crate::ioopts::ansi::ANSISequence;
use vstd::prelude::*;

verus! {

/// A stack of terminal attributes, outermost first.
#[derive(Debug)]
pub enum RenderStyle {
    /// Invisible: the cell shows as blank.
    Nil,
    /// No attribute.
    Plain,
    /// One attribute on top of the rest of the chain.
    Styled(ANSISequence, Box<RenderStyle>),
}

impl Clone for RenderStyle {
    fn clone(&self) -> (r: Self)
        ensures
            r == *self,
        decreases self,
    {
        match self {
            RenderStyle::Nil => RenderStyle::Nil,
            RenderStyle::Plain => RenderStyle::Plain,
            RenderStyle::Styled(seq, rest) => {
                let inner: RenderStyle = (&**rest).clone();
                RenderStyle::Styled(seq.clone(), Box::new(inner))
            },
        }
    }
}

impl PartialEq for RenderStyle {
    fn eq(&self, other: &Self) -> (r: bool)
        decreases self,
    {
        match (self, other) {
            (RenderStyle::Nil, RenderStyle::Nil) => true,
            (RenderStyle::Plain, RenderStyle::Plain) => true,
            (RenderStyle::Styled(a, rest), RenderStyle::Styled(b, other_rest)) => {
                *a == *b && (&**rest).eq(&**other_rest)
            },
            _ => false,
        }
    }
}

impl vstd::std_specs::cmp::PartialEqSpecImpl for RenderStyle {
    open spec fn obeys_eq_spec() -> bool {
        true
    }

    open spec fn eq_spec(&self, other: &Self) -> bool {
        *self == *other
    }
}

/// The chain that stacks the attributes in their order, the first outermost,
/// on a plain base.
pub open spec fn chain_of(attributes: Seq<ANSISequence>) -> RenderStyle
    decreases attributes.len(),
{
    if attributes.len() == 0 {
        RenderStyle::Plain
    } else {
        RenderStyle::Styled(attributes[0], Box::new(chain_of(attributes.drop_first())))
    }
}

impl RenderStyle {
    /// Stacks the attributes in their order, the first outermost, on a plain
    /// base. No attribute gives the plain style.
    pub fn chain(attributes: Vec<ANSISequence>) -> (r: RenderStyle)
        ensures
            r == chain_of(attributes@),
    {
        let mut rest = attributes;
        let mut acc = RenderStyle::Plain;
        while rest.len() > 0
            invariant
                rest@.len() <= attributes@.len(),
                rest@ == attributes@.take(rest@.len() as int),
                acc == chain_of(attributes@.skip(rest@.len() as int)),
            decreases rest.len(),
        {
            let ghost n = rest@.len();
            let attribute = rest.pop().unwrap();
            proof {
                assert(attributes@.skip(n - 1).drop_first() =~= attributes@.skip(n as int));
                assert(attributes@.skip(n - 1)[0] == attribute);
                assert(rest@ =~= attributes@.take(n - 1));
            }
            acc = RenderStyle::Styled(attribute, Box::new(acc));
        }
        assert(attributes@.skip(0) =~= attributes@);
        acc
    }

    /// The style that a character of style `current` has after this chain is
    /// applied to it: this chain where it holds an attribute, else `current`.
    pub open spec fn over(self, current: RenderStyle) -> RenderStyle {
        match self {
            RenderStyle::Styled(_, _) => self,
            _ => current,
        }
    }
}

/// The units restyled with `style`: a chain that holds an attribute replaces
/// each unit's style; any other chain leaves the units as they are.
pub open spec fn styled(units: Seq<Pixel>, style: RenderStyle) -> Seq<Pixel> {
    Seq::new(
        units.len(),
        |i: int|
            Pixel {
                content: RenderChar { ch: units[i].content.ch, style: style.over(units[i].content.style) },
                position: units[i].position,
                protected: units[i].protected,
            },
    )
}

/// A drawable that can be restyled as a whole.
pub trait Stylable: Renderable + Sized {
    /// A copy of the units, restyled with `style_seq`.
    fn style(&self, style_seq: RenderStyle) -> (r: Vec<Pixel>)
        ensures
            r@ == styled(self.units(), style_seq),
    ;
}

} // verus!
