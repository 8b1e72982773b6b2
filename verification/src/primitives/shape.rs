//! Boxes drawn with line glyphs.

use crate::interfaces::geometry::DiscreteCoord;
use crate::interfaces::pixels::Pixel;
use crate::interfaces::rendering::{RenderChar, Renderable};
use crate::interfaces::styling::RenderStyle;
use crate::ioopts::box_drawing::{
    H_LINE, LD_CORNER, LD_CORNER_SOFT, LU_CORNER, LU_CORNER_SOFT, RD_CORNER, RD_CORNER_SOFT,
    RU_CORNER, RU_CORNER_SOFT, V_LINE,
};
use vstd::prelude::*;

verus! {

/// An unprotected unit of a plain glyph.
pub open spec fn stroke(glyph: char, x: int, y: int) -> Pixel {
    Pixel {
        content: RenderChar { ch: glyph, style: RenderStyle::Plain },
        position: DiscreteCoord { x: x as u32, y: y as u32 },
        protected: false,
    }
}

/// The number of cells strictly between `lo` and `hi`.
pub open spec fn between(lo: u32, hi: u32) -> nat {
    if hi > lo + 1 {
        (hi - lo - 1) as nat
    } else {
        0
    }
}

/// The four corner units of a frame: upper left, lower right, lower left,
/// upper right.
pub open spec fn frame_corners(
    pos: DiscreteCoord,
    corner: DiscreteCoord,
    lu: char,
    rd: char,
    ld: char,
    ru: char,
) -> Seq<Pixel> {
    seq![
        stroke(lu, pos.x as int, pos.y as int),
        stroke(rd, corner.x as int, corner.y as int),
        stroke(ld, pos.x as int, corner.y as int),
        stroke(ru, corner.x as int, pos.y as int),
    ]
}

/// The horizontal edges: for each column strictly between the corners, left to
/// right, one unit on the top row and then one on the bottom row.
pub open spec fn frame_rows(pos: DiscreteCoord, corner: DiscreteCoord) -> Seq<Pixel> {
    Seq::new(
        2 * between(pos.x, corner.x),
        |i: int| stroke(H_LINE, pos.x + 1 + i / 2, if i % 2 == 0 { pos.y as int } else { corner.y as int }),
    )
}

/// The vertical edges: for each row strictly between the corners, top to
/// bottom, one unit on the left column and then one on the right column.
pub open spec fn frame_columns(pos: DiscreteCoord, corner: DiscreteCoord) -> Seq<Pixel> {
    Seq::new(
        2 * between(pos.y, corner.y),
        |i: int| stroke(V_LINE, if i % 2 == 0 { pos.x as int } else { corner.x as int }, pos.y + 1 + i / 2),
    )
}

/// The units of a frame between two corners: the corners, then the horizontal
/// edges, then the vertical edges.
pub open spec fn frame(
    pos: DiscreteCoord,
    corner: DiscreteCoord,
    lu: char,
    rd: char,
    ld: char,
    ru: char,
) -> Seq<Pixel> {
    frame_corners(pos, corner, lu, rd, ld, ru) + frame_rows(pos, corner) + frame_columns(
        pos,
        corner,
    )
}

/// Draws the frame between two corners with the given corner glyphs.
pub fn draw_frame(
    pos: DiscreteCoord,
    corner: DiscreteCoord,
    lu: char,
    rd: char,
    ld: char,
    ru: char,
) -> (pixels: Vec<Pixel>)
    ensures
        pixels@ == frame(pos, corner, lu, rd, ld, ru),
{
    let mut pixels: Vec<Pixel> = Vec::new();
    pixels.push(Pixel::new_with_char(lu, pos, false));
    pixels.push(Pixel::new_with_char(rd, corner, false));
    pixels.push(Pixel::new_with_char(ld, DiscreteCoord::new(pos.x, corner.y), false));
    pixels.push(Pixel::new_with_char(ru, DiscreteCoord::new(corner.x, pos.y), false));
    assert(pixels@ =~= frame_corners(pos, corner, lu, rd, ld, ru));
    let ghost corners = pixels@;
    let ghost rows = frame_rows(pos, corner);
    if pos.x < corner.x {
        let mut x: u32 = pos.x + 1;
        while x < corner.x
            invariant
                pos.x < x <= corner.x,
                rows == frame_rows(pos, corner),
                pixels@ == corners + rows.take(2 * (x - pos.x - 1)),
            decreases corner.x - x,
        {
            pixels.push(Pixel::new_with_char(H_LINE, DiscreteCoord::new(x, pos.y), false));
            pixels.push(Pixel::new_with_char(H_LINE, DiscreteCoord::new(x, corner.y), false));
            assert(pixels@ =~= corners + rows.take(2 * (x + 1 - pos.x - 1)));
            x += 1;
        }
    }
    assert(pixels@ =~= corners + rows);
    let ghost columns = frame_columns(pos, corner);
    if pos.y < corner.y {
        let mut y: u32 = pos.y + 1;
        while y < corner.y
            invariant
                pos.y < y <= corner.y,
                columns == frame_columns(pos, corner),
                pixels@ == corners + rows + columns.take(2 * (y - pos.y - 1)),
            decreases corner.y - y,
        {
            pixels.push(Pixel::new_with_char(V_LINE, DiscreteCoord::new(pos.x, y), false));
            pixels.push(Pixel::new_with_char(V_LINE, DiscreteCoord::new(corner.x, y), false));
            assert(pixels@ =~= corners + rows + columns.take(2 * (y + 1 - pos.y - 1)));
            y += 1;
        }
    }
    assert(pixels@ =~= corners + rows + columns);
    pixels
}

/// The corner nearest to the origin of the box spanned by two points.
pub open spec fn nearest_corner(first: DiscreteCoord, second: DiscreteCoord) -> DiscreteCoord {
    DiscreteCoord {
        x: if first.x > second.x { second.x } else { first.x },
        y: if first.y > second.y { second.y } else { first.y },
    }
}

/// The corner farthest from the origin of the box spanned by two points.
pub open spec fn farthest_corner(first: DiscreteCoord, second: DiscreteCoord) -> DiscreteCoord {
    DiscreteCoord {
        x: if first.x > second.x { first.x } else { second.x },
        y: if first.y > second.y { first.y } else { second.y },
    }
}

/// A box with square corners.
pub struct Rectangle {
    pos: DiscreteCoord,
    corner: DiscreteCoord,
}

impl Rectangle {
    #[verifier::type_invariant]
    spec fn ordered(self) -> bool {
        self.pos.x <= self.corner.x && self.pos.y <= self.corner.y
    }

    /// The upper left corner.
    pub closed spec fn spec_pos(&self) -> DiscreteCoord {
        self.pos
    }

    /// The lower right corner.
    pub closed spec fn spec_corner(&self) -> DiscreteCoord {
        self.corner
    }

    /// The upper left corner.
    #[verifier::when_used_as_spec(spec_pos)]
    pub fn pos(&self) -> (r: DiscreteCoord)
        ensures
            r == self.spec_pos(),
            r.x <= self.spec_corner().x,
            r.y <= self.spec_corner().y,
    {
        proof {
            use_type_invariant(self);
        }
        self.pos
    }

    /// The lower right corner.
    #[verifier::when_used_as_spec(spec_corner)]
    pub fn corner(&self) -> (r: DiscreteCoord)
        ensures
            r == self.spec_corner(),
            self.spec_pos().x <= r.x,
            self.spec_pos().y <= r.y,
    {
        proof {
            use_type_invariant(self);
        }
        self.corner
    }

    /// The box spanned by two points, whichever of its corners they are.
    pub fn new(first: DiscreteCoord, second: DiscreteCoord) -> (r: Self)
        ensures
            r.spec_pos() == nearest_corner(first, second),
            r.spec_corner() == farthest_corner(first, second),
    {
        match (first.x > second.x, first.y > second.y) {
            (false, false) => Rectangle { pos: first, corner: second },
            (true, false) => Rectangle {
                pos: DiscreteCoord { x: second.x, y: first.y },
                corner: DiscreteCoord { x: first.x, y: second.y },
            },
            (false, true) => Rectangle {
                pos: DiscreteCoord { x: first.x, y: second.y },
                corner: DiscreteCoord { x: second.x, y: first.y },
            },
            (true, true) => Rectangle { pos: second, corner: first },
        }
    }
}

impl Renderable for Rectangle {
    open spec fn units(&self) -> Seq<Pixel> {
        frame(self.spec_pos(), self.spec_corner(), LU_CORNER, RD_CORNER, LD_CORNER, RU_CORNER)
    }

    /// The distance between the corners on each axis.
    open spec fn size(&self) -> DiscreteCoord {
        self.spec_corner().minus(self.spec_pos())
    }

    fn pixels(&self) -> (r: Vec<Pixel>) {
        draw_frame(self.pos, self.corner, LU_CORNER, RD_CORNER, LD_CORNER, RU_CORNER)
    }

    fn dim(&self) -> (r: DiscreteCoord) {
        DiscreteCoord::new(
            self.corner.x.saturating_sub(self.pos.x),
            self.corner.y.saturating_sub(self.pos.y),
        )
    }
}

/// A box with rounded corners.
pub struct SoftBox {
    pos: DiscreteCoord,
    corner: DiscreteCoord,
}

impl SoftBox {
    #[verifier::type_invariant]
    spec fn ordered(self) -> bool {
        self.pos.x <= self.corner.x && self.pos.y <= self.corner.y
    }

    /// The upper left corner.
    pub closed spec fn spec_pos(&self) -> DiscreteCoord {
        self.pos
    }

    /// The lower right corner.
    pub closed spec fn spec_corner(&self) -> DiscreteCoord {
        self.corner
    }

    /// The upper left corner.
    #[verifier::when_used_as_spec(spec_pos)]
    pub fn pos(&self) -> (r: DiscreteCoord)
        ensures
            r == self.spec_pos(),
            r.x <= self.spec_corner().x,
            r.y <= self.spec_corner().y,
    {
        proof {
            use_type_invariant(self);
        }
        self.pos
    }

    /// The lower right corner.
    #[verifier::when_used_as_spec(spec_corner)]
    pub fn corner(&self) -> (r: DiscreteCoord)
        ensures
            r == self.spec_corner(),
            self.spec_pos().x <= r.x,
            self.spec_pos().y <= r.y,
    {
        proof {
            use_type_invariant(self);
        }
        self.corner
    }

    /// The box spanned by two points, whichever of its corners they are.
    pub fn new(first: DiscreteCoord, second: DiscreteCoord) -> (r: Self)
        ensures
            r.spec_pos() == nearest_corner(first, second),
            r.spec_corner() == farthest_corner(first, second),
    {
        match (first.x > second.x, first.y > second.y) {
            (false, false) => SoftBox { pos: first, corner: second },
            (true, false) => SoftBox {
                pos: DiscreteCoord { x: second.x, y: first.y },
                corner: DiscreteCoord { x: first.x, y: second.y },
            },
            (false, true) => SoftBox {
                pos: DiscreteCoord { x: first.x, y: second.y },
                corner: DiscreteCoord { x: second.x, y: first.y },
            },
            (true, true) => SoftBox { pos: second, corner: first },
        }
    }
}

impl Renderable for SoftBox {
    open spec fn units(&self) -> Seq<Pixel> {
        frame(self.spec_pos(), self.spec_corner(), LU_CORNER_SOFT, RD_CORNER_SOFT, LD_CORNER_SOFT, RU_CORNER_SOFT)
    }

    /// The distance between the corners on each axis.
    open spec fn size(&self) -> DiscreteCoord {
        self.spec_corner().minus(self.spec_pos())
    }

    fn pixels(&self) -> (r: Vec<Pixel>) {
        draw_frame(self.pos, self.corner, LU_CORNER_SOFT, RD_CORNER_SOFT, LD_CORNER_SOFT, RU_CORNER_SOFT)
    }

    fn dim(&self) -> (r: DiscreteCoord) {
        DiscreteCoord::new(
            self.corner.x.saturating_sub(self.pos.x),
            self.corner.y.saturating_sub(self.pos.y),
        )
    }
}

} // verus!
