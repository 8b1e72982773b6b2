//! An ordered group of drawables of any kind, which is itself a drawable.
//!
//! A drawable that joins a list is captured: the list keeps the units and the
//! size that the drawable showed at that moment, in the order of joining.

use crate::interfaces::geometry::DiscreteCoord;
use crate::interfaces::pixels::Pixel;
use crate::interfaces::rendering::{copy_units, Renderable};
use vstd::prelude::*;

verus! {

/// What a drawable shows: its units and the size it reports.
pub struct Appearance {
    pub units: Seq<Pixel>,
    pub size: DiscreteCoord,
}

/// A drawable as a list keeps it: the units and the size it showed on joining.
pub struct Captured {
    pub units: Vec<Pixel>,
    pub size: DiscreteCoord,
}

impl Captured {
    /// Captures what a drawable shows.
    pub fn of_boxed(item: &Box<dyn Renderable>) -> (r: Self)
        ensures
            r@ == (Appearance { units: item.units(), size: item.size() }),
    {
        Captured { units: item.pixels(), size: item.dim() }
    }

    /// Captures what a drawable shows.
    pub fn of<T: Renderable>(item: &T) -> (r: Self)
        ensures
            r@ == (Appearance { units: item.units(), size: item.size() }),
    {
        Captured { units: item.pixels(), size: item.dim() }
    }
}

impl View for Captured {
    type V = Appearance;

    open spec fn view(&self) -> Appearance {
        Appearance { units: self.units@, size: self.size }
    }
}

impl Renderable for Captured {
    open spec fn units(&self) -> Seq<Pixel> {
        self.units@
    }

    open spec fn size(&self) -> DiscreteCoord {
        self.size
    }

    fn pixels(&self) -> (r: Vec<Pixel>) {
        copy_units(&self.units)
    }

    fn dim(&self) -> (r: DiscreteCoord) {
        self.size
    }
}

/// The units of every entry, entry after entry.
pub open spec fn joined(entries: Seq<Appearance>) -> Seq<Pixel>
    decreases entries.len(),
{
    if entries.len() == 0 {
        Seq::empty()
    } else {
        entries[0].units + joined(entries.drop_first())
    }
}

/// An ordered list of captured drawables: a head and the rest, or nothing.
pub enum RenderableList {
    Link(Captured, Box<RenderableList>),
    Nil,
}

impl RenderableList {
    /// What the drawables of the list show, head first.
    pub open spec fn entries(&self) -> Seq<Appearance>
        decreases self,
    {
        match self {
            RenderableList::Link(head, tail) => seq![head@] + tail.entries(),
            RenderableList::Nil => Seq::empty(),
        }
    }

    /// The empty list.
    pub fn new() -> (r: Self)
        ensures
            r.entries() == Seq::<Appearance>::empty(),
    {
        RenderableList::Nil
    }

    /// Captures the drawables and links them in the order of the vector.
    pub fn build_from_vector(a: Vec<Box<dyn Renderable>>) -> (r: Self)
        ensures
            r.entries().len() == a@.len(),
            forall|i: int|
                0 <= i < a@.len() ==> (#[trigger] r.entries()[i]).units == a@[i].units()
                    && r.entries()[i].size == a@[i].size(),
    {
        let mut acc = RenderableList::Nil;
        let mut k: usize = a.len();
        while k > 0
            invariant
                k <= a@.len(),
                acc.entries().len() == a@.len() - k,
                forall|i: int|
                    0 <= i < acc.entries().len() ==> (#[trigger] acc.entries()[i]).units == a@[k
                        + i].units() && acc.entries()[i].size == a@[k + i].size(),
            decreases k,
        {
            k -= 1;
            let head = Captured::of_boxed(&a[k]);
            let ghost tail = acc.entries();
            acc = RenderableList::Link(head, Box::new(acc));
            assert(acc.entries() =~= seq![head@] + tail);
        }
        acc
    }

    /// Captures the items and links them in the order of the vector.
    pub fn from_items<T: Renderable + 'static>(items: Vec<T>) -> (r: Self)
        ensures
            r.entries().len() == items@.len(),
            forall|i: int|
                0 <= i < items@.len() ==> (#[trigger] r.entries()[i]).units == items@[i].units()
                    && r.entries()[i].size == items@[i].size(),
    {
        let mut acc = RenderableList::Nil;
        let mut k: usize = items.len();
        while k > 0
            invariant
                k <= items@.len(),
                acc.entries().len() == items@.len() - k,
                forall|i: int|
                    0 <= i < acc.entries().len() ==> (#[trigger] acc.entries()[i]).units
                        == items@[k + i].units() && acc.entries()[i].size == items@[k
                        + i].size(),
            decreases k,
        {
            k -= 1;
            let head = Captured::of(&items[k]);
            let ghost tail = acc.entries();
            acc = RenderableList::Link(head, Box::new(acc));
            assert(acc.entries() =~= seq![head@] + tail);
        }
        acc
    }

    /// The number of drawables.
    pub fn len(&self) -> (n: usize)
        ensures
            n == (if self.entries().len() <= usize::MAX {
                self.entries().len() as int
            } else {
                usize::MAX as int
            }),
        decreases self,
    {
        match self {
            RenderableList::Link(_, tail) => tail.len().saturating_add(1),
            RenderableList::Nil => 0,
        }
    }

    pub fn is_empty(&self) -> (r: bool)
        ensures
            r == (self.entries().len() == 0),
    {
        matches!(self, RenderableList::Nil)
    }

    /// A walk over the drawables, head first, that leaves the list as it is.
    pub fn iter<'a>(&'a self) -> (it: RenderableListIter<'a>)
        ensures
            it.remaining() == self.entries(),
    {
        RenderableListIter { current: Some(self) }
    }
}

/// A walk over the drawables of a list, head first.
pub struct RenderableListIter<'a> {
    current: Option<&'a RenderableList>,
}

impl<'a> RenderableListIter<'a> {
    /// What the drawables that the walk has not reached yet show, next one first.
    pub closed spec fn remaining(&self) -> Seq<Appearance> {
        match self.current {
            Some(list) => list.entries(),
            None => Seq::empty(),
        }
    }

    /// Hands out the next drawable and steps past it; `None` at the end.
    pub fn next(&mut self) -> (r: Option<&'a Captured>)
        ensures
            old(self).remaining().len() == 0 ==> r is None && final(self).remaining().len() == 0,
            old(self).remaining().len() > 0 ==> r is Some && r->0@ == old(self).remaining()[0]
                && final(self).remaining() == old(self).remaining().drop_first(),
    {
        match self.current {
            Some(RenderableList::Link(head, tail)) => {
                self.current = Some(tail);
                assert(old(self).remaining().drop_first() =~= tail.entries());
                Some(head)
            },
            _ => {
                self.current = None;
                None
            },
        }
    }
}

impl Renderable for RenderableList {
    /// The units of every drawable, drawable after drawable.
    open spec fn units(&self) -> Seq<Pixel> {
        joined(self.entries())
    }

    /// The size of the first drawable alone; the origin for an empty list.
    open spec fn size(&self) -> DiscreteCoord {
        if self.entries().len() == 0 {
            DiscreteCoord { x: 0, y: 0 }
        } else {
            self.entries()[0].size
        }
    }

    fn pixels(&self) -> (r: Vec<Pixel>)
        decreases self,
    {
        match self {
            RenderableList::Link(head, tail) => {
                let mut pixels = head.pixels();
                let mut more = tail.pixels();
                pixels.append(&mut more);
                assert(self.entries().drop_first() =~= tail.entries());
                pixels
            },
            RenderableList::Nil => Vec::new(),
        }
    }

    fn dim(&self) -> (r: DiscreteCoord) {
        match self {
            RenderableList::Link(head, _) => head.dim(),
            RenderableList::Nil => DiscreteCoord { x: 0, y: 0 },
        }
    }
}

} // verus!
