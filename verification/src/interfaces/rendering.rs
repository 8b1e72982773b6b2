//! Styled characters and the capability contract of drawables.

use crate::engine::{paint, OvertureRenderEngine};
use crate::interfaces::geometry::{clamp_u32, DiscreteCoord, RenderPlacementConfig, Translation};
use crate::interfaces::pixels::Pixel;
use crate::interfaces::styling::RenderStyle;
use vstd::prelude::*;

verus! {

/// A character together with the style chain it is shown in.
#[derive(Debug)]
pub struct RenderChar {
    pub ch: char,
    pub style: RenderStyle,
}

impl RenderChar {
    pub fn new(ch: char, style: RenderStyle) -> (r: Self)
        ensures
            r == (RenderChar { ch, style }),
    {
        RenderChar { ch: ch, style: style }
    }

    pub fn new_plain(ch: char) -> (r: Self)
        ensures
            r == (RenderChar { ch, style: RenderStyle::Plain }),
    {
        RenderChar { ch: ch, style: RenderStyle::Plain }
    }

    /// The empty cell: a space without attributes.
    pub open spec fn blank_spec() -> RenderChar {
        RenderChar { ch: ' ', style: RenderStyle::Plain }
    }

    /// The empty cell: a space without attributes.
    pub fn blank() -> (r: Self)
        ensures
            r == Self::blank_spec(),
    {
        RenderChar { ch: ' ', style: RenderStyle::Plain }
    }
}

impl Clone for RenderChar {
    fn clone(&self) -> (r: Self)
        ensures
            r == *self,
    {
        RenderChar { ch: self.ch, style: self.style.clone() }
    }
}

impl PartialEq for RenderChar {
    fn eq(&self, other: &Self) -> (r: bool) {
        self.ch == other.ch && self.style == other.style
    }
}

impl vstd::std_specs::cmp::PartialEqSpecImpl for RenderChar {
    open spec fn obeys_eq_spec() -> bool {
        true
    }

    open spec fn eq_spec(&self, other: &Self) -> bool {
        *self == *other
    }
}

/// The units, each moved by `(dx, dy)` and clamped to the grid.
pub open spec fn moved(units: Seq<Pixel>, dx: int, dy: int) -> Seq<Pixel> {
    Seq::new(units.len(), |i: int| units[i].shifted(dx, dy))
}

/// The units, each with its protection flag set to `flag`.
pub open spec fn flagged(units: Seq<Pixel>, flag: bool) -> Seq<Pixel> {
    Seq::new(units.len(), |i: int| units[i].flagged(flag))
}

/// The units that survive pruning, in their order: those that are protected or
/// whose glyph is not blank.
pub open spec fn pruned(units: Seq<Pixel>) -> Seq<Pixel> {
    units.filter(|u: Pixel| u.survives_pruning())
}

/// The smallest column and the smallest row that any unit occupies; the origin
/// where there is no unit.
pub open spec fn lower_corner(units: Seq<Pixel>) -> DiscreteCoord
    decreases units.len(),
{
    if units.len() == 0 {
        DiscreteCoord { x: 0, y: 0 }
    } else if units.len() == 1 {
        units[0].position
    } else {
        let rest = lower_corner(units.drop_last());
        let p = units.last().position;
        DiscreteCoord {
            x: if p.x < rest.x { p.x } else { rest.x },
            y: if p.y < rest.y { p.y } else { rest.y },
        }
    }
}

/// The largest column and the largest row that any unit occupies; the origin
/// where there is no unit.
pub open spec fn upper_corner(units: Seq<Pixel>) -> DiscreteCoord
    decreases units.len(),
{
    if units.len() == 0 {
        DiscreteCoord { x: 0, y: 0 }
    } else {
        let rest = upper_corner(units.drop_last());
        let p = units.last().position;
        DiscreteCoord {
            x: if p.x > rest.x { p.x } else { rest.x },
            y: if p.y > rest.y { p.y } else { rest.y },
        }
    }
}

/// The room left on one axis when a span from `lo` to `hi`, both included, is
/// placed inside `total` cells: never negative, and clamped to the range of `u32`.
pub open spec fn room(total: int, lo: u32, hi: u32) -> u32 {
    clamp_u32(total - (hi - lo + 1))
}

/// The room left on both axes around the tight bounding box of `units` inside
/// an area of `columns` by `rows` cells.
pub open spec fn available(units: Seq<Pixel>, columns: int, rows: int) -> DiscreteCoord {
    let lo = lower_corner(units);
    let hi = upper_corner(units);
    DiscreteCoord { x: room(columns, lo.x, hi.x), y: room(rows, lo.y, hi.y) }
}

/// The units aligned inside an area of size `dim`: moved so that the lower
/// corner of their bounding box lands on the anchor that the policy picks for
/// the room left around that box. No unit gives no unit.
pub open spec fn aligned(
    units: Seq<Pixel>,
    to: RenderPlacementConfig,
    dim: DiscreteCoord,
) -> Seq<Pixel> {
    if units.len() == 0 {
        Seq::empty()
    } else {
        let lo = lower_corner(units);
        let anchor = to.anchor_spec(available(units, dim.x as int, dim.y as int));
        moved(units, anchor.x - lo.x, anchor.y - lo.y)
    }
}

/// Copies every unit.
pub fn copy_units(units: &Vec<Pixel>) -> (r: Vec<Pixel>)
    ensures
        r@ == units@,
{
    let mut out: Vec<Pixel> = Vec::new();
    let mut i: usize = 0;
    while i < units.len()
        invariant
            i <= units.len(),
            out@ == units@.take(i as int),
        decreases units.len() - i,
    {
        let p = &units[i];
        out.push(
            Pixel { content: p.content.clone(), position: p.position, protected: p.protected },
        );
        i += 1;
        assert(out@ =~= units@.take(i as int));
    }
    assert(units@.take(i as int) =~= units@);
    out
}

/// Moves every unit by `(dx, dy)`.
pub fn shift_units(units: &Vec<Pixel>, dx: i64, dy: i64) -> (r: Vec<Pixel>)
    ensures
        r@ == moved(units@, dx as int, dy as int),
{
    let mut out: Vec<Pixel> = Vec::new();
    let mut i: usize = 0;
    while i < units.len()
        invariant
            i <= units.len(),
            out@ == moved(units@.take(i as int), dx as int, dy as int),
        decreases units.len() - i,
    {
        let unit = &units[i];
        let x = clamp_component(unit.position.x as i128 + dx as i128);
        let y = clamp_component(unit.position.y as i128 + dy as i128);
        out.push(Pixel::new(unit.content.clone(), DiscreteCoord::new(x, y), unit.protected));
        i += 1;
        assert(out@ =~= moved(units@.take(i as int), dx as int, dy as int));
    }
    assert(units@.take(i as int) =~= units@);
    out
}

/// Narrows a signed amount to the `u32` range, clamped.
pub fn clamp_component(v: i128) -> (r: u32)
    ensures
        r == clamp_u32(v as int),
{
    if v < 0 {
        0
    } else if v > u32::MAX as i128 {
        u32::MAX
    } else {
        v as u32
    }
}

/// Sets the protection flag of every unit.
pub fn flag_units(units: &Vec<Pixel>, flag: bool) -> (r: Vec<Pixel>)
    ensures
        r@ == flagged(units@, flag),
{
    let mut out: Vec<Pixel> = Vec::new();
    let mut i: usize = 0;
    while i < units.len()
        invariant
            i <= units.len(),
            out@ == flagged(units@.take(i as int), flag),
        decreases units.len() - i,
    {
        let unit = &units[i];
        out.push(Pixel::new(unit.content.clone(), unit.position, flag));
        i += 1;
        assert(out@ =~= flagged(units@.take(i as int), flag));
    }
    assert(units@.take(i as int) =~= units@);
    out
}

/// Drops the blank units that are not protected.
pub fn prune_units(units: Vec<Pixel>) -> (r: Vec<Pixel>)
    ensures
        r@ == pruned(units@),
{
    let mut out: Vec<Pixel> = Vec::new();
    let mut i: usize = 0;
    while i < units.len()
        invariant
            i <= units.len(),
            out@ == pruned(units@.take(i as int)),
        decreases units.len() - i,
    {
        let unit = &units[i];
        proof {
            reveal(Seq::filter);
            assert(units@.take(i + 1).drop_last() =~= units@.take(i as int));
        }
        if unit.content.ch != ' ' || unit.protected {
            out.push(unit.clone());
        }
        i += 1;
    }
    assert(units@.take(i as int) =~= units@);
    out
}

/// The two corners of the tight bounding box of the units.
pub fn bounding_corners(units: &Vec<Pixel>) -> (r: (DiscreteCoord, DiscreteCoord))
    ensures
        r.0 == lower_corner(units@),
        r.1 == upper_corner(units@),
{
    let mut lo = DiscreteCoord::origin();
    let mut hi = DiscreteCoord::origin();
    let mut i: usize = 0;
    while i < units.len()
        invariant
            i <= units.len(),
            lo == lower_corner(units@.take(i as int)),
            hi == upper_corner(units@.take(i as int)),
        decreases units.len() - i,
    {
        let p = units[i].position;
        proof {
            assert(units@.take(i + 1).drop_last() =~= units@.take(i as int));
        }
        if i == 0 {
            lo = p;
        } else {
            lo = DiscreteCoord::new(
                if p.x < lo.x { p.x } else { lo.x },
                if p.y < lo.y { p.y } else { lo.y },
            );
        }
        hi = DiscreteCoord::new(
            if p.x > hi.x { p.x } else { hi.x },
            if p.y > hi.y { p.y } else { hi.y },
        );
        i += 1;
    }
    assert(units@.take(i as int) =~= units@);
    (lo, hi)
}

/// The room left on one axis; see [`room`].
pub fn room_on_axis(total: u64, lo: u32, hi: u32) -> (r: u32)
    ensures
        r == room(total as int, lo, hi),
{
    clamp_component(total as i128 - (hi as i128 - lo as i128 + 1))
}

/// What every drawable offers: its units and its size, and the transformations
/// that are derived from them.
pub trait Renderable {
    /// The object's own units, in its own coordinate frame and in paint order.
    spec fn units(&self) -> Seq<Pixel>;

    /// The object's size as it reports it.
    spec fn size(&self) -> DiscreteCoord;

    fn pixels(&self) -> (r: Vec<Pixel>)
        ensures
            r@ == self.units(),
    ;

    fn dim(&self) -> (r: DiscreteCoord)
        ensures
            r == self.size(),
    ;

    /// Paints the object's units into the engine, each at its own position moved
    /// by `(x, y)`.
    fn render_at(&self, x: u32, y: u32, engine: &mut OvertureRenderEngine)
        requires
            old(engine).wf(),
        ensures
            final(engine).wf(),
            final(engine).width == old(engine).width,
            final(engine).objects == old(engine).objects,
            final(engine).grid() == paint(
                old(engine).grid(),
                old(engine).width as nat,
                self.units(),
                DiscreteCoord { x, y },
            ),
    {
        let pixels = self.pixels();
        if pixels.is_empty() {
            return ;
        }
        let ghost at = DiscreteCoord { x, y };
        let mut i: usize = 0;
        while i < pixels.len()
            invariant
                i <= pixels.len(),
                at == (DiscreteCoord { x, y }),
                engine.wf(),
                engine.width == old(engine).width,
                engine.objects == old(engine).objects,
                engine.grid() == paint(
                    old(engine).grid(),
                    old(engine).width as nat,
                    pixels@.take(i as int),
                    at,
                ),
            decreases pixels.len() - i,
        {
            let pixel = &pixels[i];
            let cell = DiscreteCoord::new(
                x.saturating_add(pixel.position.x),
                y.saturating_add(pixel.position.y),
            );
            proof {
                assert(pixels@.take(i + 1).drop_last() =~= pixels@.take(i as int));
            }
            engine.set_pixel(cell.x, cell.y, pixel.content.clone());
            i += 1;
        }
        assert(pixels@.take(i as int) =~= pixels@);
    }

    /// A copy of the units, each moved by `by`.
    fn translate(&self, by: Translation) -> (r: Vec<Pixel>)
        ensures
            r@ == moved(self.units(), by.x as int, by.y as int),
    {
        let pixels = self.pixels();
        shift_units(&pixels, by.x as i64, by.y as i64)
    }

    /// A copy of the units, aligned inside an area of size `dim`.
    fn align(&self, to: RenderPlacementConfig, dim: DiscreteCoord) -> (r: Vec<Pixel>)
        ensures
            r@ == aligned(self.units(), to, dim),
    {
        let pixels = self.pixels();
        if pixels.is_empty() {
            return Vec::new();
        }
        let (lo, hi) = bounding_corners(&pixels);
        let room = DiscreteCoord::new(
            room_on_axis(dim.x as u64, lo.x, hi.x),
            room_on_axis(dim.y as u64, lo.y, hi.y),
        );
        let anchor = to.anchor(room);
        shift_units(&pixels, anchor.x as i64 - lo.x as i64, anchor.y as i64 - lo.y as i64)
    }

    /// The units as they are painted: the object's own units.
    fn rasterize(&self) -> (r: Vec<Pixel>)
        ensures
            r@ == self.units(),
    {
        self.pixels()
    }

    /// The rasterised units without the blank ones that are not protected.
    fn prune(&self) -> (r: Vec<Pixel>)
        ensures
            r@ == pruned(self.units()),
    {
        prune_units(self.rasterize())
    }

    /// A copy of the units, every one protected.
    fn protect(&self) -> (r: Vec<Pixel>)
        ensures
            r@ == flagged(self.units(), true),
    {
        let pixels = self.pixels();
        flag_units(&pixels, true)
    }

    /// A copy of the units, every one with its protection flag set to `protect`.
    fn set_protect(&self, protect: bool) -> (r: Vec<Pixel>)
        ensures
            r@ == flagged(self.units(), protect),
    {
        let pixels = self.pixels();
        flag_units(&pixels, protect)
    }
}

/// The units of every item, item after item.
pub open spec fn gathered<T: Renderable>(items: Seq<T>) -> Seq<Pixel>
    decreases items.len(),
{
    if items.len() == 0 {
        Seq::empty()
    } else {
        gathered(items.drop_last()) + items.last().units()
    }
}

impl<T: Renderable> Renderable for Vec<T> {
    open spec fn units(&self) -> Seq<Pixel> {
        gathered(self@)
    }

    /// The largest column and the largest row that any unit of any item occupies.
    open spec fn size(&self) -> DiscreteCoord {
        upper_corner(gathered(self@))
    }

    fn pixels(&self) -> (r: Vec<Pixel>) {
        let mut out: Vec<Pixel> = Vec::new();
        let mut i: usize = 0;
        while i < self.len()
            invariant
                i <= self.len(),
                out@ == gathered(self@.take(i as int)),
            decreases self.len() - i,
        {
            let mut more = self[i].pixels();
            proof {
                assert(self@.take(i + 1).drop_last() =~= self@.take(i as int));
            }
            out.append(&mut more);
            i += 1;
        }
        assert(self@.take(i as int) =~= self@);
        out
    }

    fn dim(&self) -> (r: DiscreteCoord) {
        let all = self.pixels();
        let (_, hi) = bounding_corners(&all);
        hi
    }
}

/// The lower corner of a bounding box is a lower bound of every unit's
/// position, and the upper corner an upper bound.
pub proof fn lemma_corners_bound(units: Seq<Pixel>, i: int)
    requires
        0 <= i < units.len(),
    ensures
        lower_corner(units).x <= units[i].position.x <= upper_corner(units).x,
        lower_corner(units).y <= units[i].position.y <= upper_corner(units).y,
    decreases units.len(),
{
    if units.len() > 1 && i < units.len() - 1 {
        lemma_corners_bound(units.drop_last(), i);
    }
}

/// Pruning keeps a list of units as it is where every unit survives.
pub proof fn lemma_prune_keeps_survivors(units: Seq<Pixel>)
    requires
        forall|i: int| 0 <= i < units.len() ==> (#[trigger] units[i]).survives_pruning(),
    ensures
        pruned(units) == units,
    decreases units.len(),
{
    reveal(Seq::filter);
    if units.len() > 0 {
        lemma_prune_keeps_survivors(units.drop_last());
        assert(units.drop_last().push(units.last()) =~= units);
    }
}

/// Pruning removes exactly the blank units that are not protected: every unit
/// that it keeps survives and was there before, and every surviving unit is
/// kept.
pub proof fn lemma_prune_removes_exactly(units: Seq<Pixel>)
    ensures
        pruned(units).len() <= units.len(),
        forall|i: int|
            0 <= i < pruned(units).len() ==> (#[trigger] pruned(units)[i]).survives_pruning()
                && units.contains(pruned(units)[i]),
        forall|i: int|
            0 <= i < units.len() && (#[trigger] units[i]).survives_pruning() ==> pruned(
                units,
            ).contains(units[i]),
    decreases units.len(),
{
    reveal(Seq::filter);
    if units.len() > 0 {
        let rest = units.drop_last();
        let last = units.last();
        lemma_prune_removes_exactly(rest);
        assert forall|i: int| 0 <= i < pruned(units).len() implies (#[trigger] pruned(
            units,
        )[i]).survives_pruning() && units.contains(pruned(units)[i]) by {
            if i < pruned(rest).len() {
                assert(pruned(units)[i] == pruned(rest)[i]);
                let j = choose|j: int| 0 <= j < rest.len() && rest[j] == pruned(rest)[i];
                assert(units[j] == pruned(units)[i]);
            } else {
                assert(units[units.len() - 1] == pruned(units)[i]);
            }
        }
        assert forall|i: int|
            0 <= i < units.len() && (#[trigger] units[i]).survives_pruning() implies pruned(
            units,
        ).contains(units[i]) by {
            if i < rest.len() {
                assert(rest[i].survives_pruning());
                let j = choose|j: int| 0 <= j < pruned(rest).len() && pruned(rest)[j] == rest[i];
                assert(pruned(units)[j] == units[i]);
            } else {
                assert(pruned(units)[pruned(units).len() - 1] == units[i]);
            }
        }
    }
}

/// Pruning keeps the order of the units: what it keeps of a prefix is a prefix
/// of what it keeps of the whole.
pub proof fn lemma_prune_prefix(units: Seq<Pixel>, n: int)
    requires
        0 <= n <= units.len(),
    ensures
        pruned(units.take(n)).len() <= pruned(units).len(),
        pruned(units.take(n)) == pruned(units).take(pruned(units.take(n)).len() as int),
    decreases units.len() - n,
{
    reveal(Seq::filter);
    if n == units.len() {
        assert(units.take(n) =~= units);
        assert(pruned(units).take(pruned(units).len() as int) =~= pruned(units));
    } else {
        lemma_prune_prefix(units, n + 1);
        assert(units.take(n + 1).drop_last() =~= units.take(n));
        let longer = pruned(units.take(n + 1));
        let shorter = pruned(units.take(n));
        assert(shorter =~= pruned(units).take(shorter.len() as int)) by {
            if units[n].survives_pruning() {
                assert(longer == shorter.push(units[n]));
            }
        }
    }
}

/// Pruning twice gives what pruning once gives.
pub proof fn lemma_prune_idempotent(units: Seq<Pixel>)
    ensures
        pruned(pruned(units)) == pruned(units),
{
    lemma_prune_removes_exactly(units);
    lemma_prune_keeps_survivors(pruned(units));
}

/// Protection defeats pruning: pruning protected units keeps every one of them,
/// and protecting changes neither the number of the units nor the content or
/// the position of any of them.
pub proof fn lemma_protect_defeats_prune(units: Seq<Pixel>)
    ensures
        pruned(flagged(units, true)) == flagged(units, true),
        flagged(units, true).len() == units.len(),
        forall|i: int|
            0 <= i < units.len() ==> (#[trigger] flagged(units, true)[i]).content
                == units[i].content && flagged(units, true)[i].position == units[i].position,
{
    lemma_prune_keeps_survivors(flagged(units, true));
}

/// Aligning to the top left only normalises: every unit moves by the lower
/// corner of the bounding box and by nothing else, whatever the target size,
/// so the units keep their layout relative to each other.
pub proof fn lemma_align_top_left_normalises(units: Seq<Pixel>, dim: DiscreteCoord)
    ensures
        aligned(units, RenderPlacementConfig::TopLeft, dim).len() == units.len(),
        forall|i: int|
            0 <= i < units.len() ==> (#[trigger] aligned(
                units,
                RenderPlacementConfig::TopLeft,
                dim,
            )[i]) == (Pixel {
                content: units[i].content,
                position: DiscreteCoord {
                    x: (units[i].position.x - lower_corner(units).x) as u32,
                    y: (units[i].position.y - lower_corner(units).y) as u32,
                },
                protected: units[i].protected,
            }),
{
    assert forall|i: int| 0 <= i < units.len() implies (#[trigger] aligned(
        units,
        RenderPlacementConfig::TopLeft,
        dim,
    )[i]) == (Pixel {
        content: units[i].content,
        position: DiscreteCoord {
            x: (units[i].position.x - lower_corner(units).x) as u32,
            y: (units[i].position.y - lower_corner(units).y) as u32,
        },
        protected: units[i].protected,
    }) by {
        lemma_corners_bound(units, i);
    }
}

/// Where the target size is the size of the bounding box, no room is left, and
/// every policy but an explicit offset aligns as the top left policy does.
pub proof fn lemma_align_snug(units: Seq<Pixel>, to: RenderPlacementConfig, dim: DiscreteCoord)
    requires
        units.len() > 0,
        !(to is Offset),
        dim.x == upper_corner(units).x - lower_corner(units).x + 1,
        dim.y == upper_corner(units).y - lower_corner(units).y + 1,
    ensures
        aligned(units, to, dim) == aligned(units, RenderPlacementConfig::TopLeft, dim),
{
}

} // verus!
