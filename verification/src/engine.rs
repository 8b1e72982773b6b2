//! The render engine: a grid of styled characters that drawables are painted into.

use crate::interfaces::containers::RenderableList;
use crate::interfaces::geometry::{DiscreteCoord, RenderPlacementConfig};
use crate::interfaces::pixels::Pixel;
use crate::interfaces::rendering::{
    available, bounding_corners, room_on_axis, RenderChar, Renderable,
};
use crate::interfaces::styling::RenderStyle;
use crate::ioopts::ansi::cursor::CLEAR_SCREEN;
use crate::ioopts::ansi::styling::RESET;
use vstd::prelude::*;
use vstd::string::StringExecFns;

verus! {

/// A row of `width` empty cells.
pub open spec fn blank_row(width: nat) -> Seq<RenderChar> {
    Seq::new(width, |i: int| RenderChar::blank_spec())
}

/// The grid padded at the bottom with blank rows until it has at least `rows` rows.
pub open spec fn grown(grid: Seq<Seq<RenderChar>>, width: nat, rows: nat) -> Seq<Seq<RenderChar>> {
    if grid.len() >= rows {
        grid
    } else {
        grid + Seq::new((rows - grid.len()) as nat, |i: int| blank_row(width))
    }
}

/// The grid after one write at column `x`, row `y`: grown to reach row `y`, and
/// the cell overwritten where the column lies inside the width.
pub open spec fn put(
    grid: Seq<Seq<RenderChar>>,
    width: nat,
    x: nat,
    y: nat,
    ch: RenderChar,
) -> Seq<Seq<RenderChar>> {
    let tall = grown(grid, width, y + 1);
    if x < width {
        tall.update(y as int, tall[y as int].update(x as int, ch))
    } else {
        tall
    }
}

/// The cell that a unit lands on when its object is anchored at `at`.
pub open spec fn target(at: DiscreteCoord, unit: Pixel) -> DiscreteCoord {
    at.plus(unit.position)
}

/// The grid after painting `units` in order, each at its own position moved by
/// the anchor `at`. Later units overwrite earlier ones.
pub open spec fn paint(
    grid: Seq<Seq<RenderChar>>,
    width: nat,
    units: Seq<Pixel>,
    at: DiscreteCoord,
) -> Seq<Seq<RenderChar>>
    decreases units.len(),
{
    if units.len() == 0 {
        grid
    } else {
        let cell = target(at, units.last());
        put(paint(grid, width, units.drop_last(), at), width, cell.x as nat, cell.y as nat, units.last().content)
    }
}

/// Whether every row of the grid is `width` cells long.
pub open spec fn rectangular(grid: Seq<Seq<RenderChar>>, width: nat) -> bool {
    forall|r: int| 0 <= r < grid.len() ==> (#[trigger] grid[r]).len() == width
}

/// The policy that applies where none is given.
pub open spec fn placement_or_default(
    placement: Option<RenderPlacementConfig>,
) -> RenderPlacementConfig {
    match placement {
        Some(p) => p,
        None => RenderPlacementConfig::TopLeft,
    }
}

/// The anchor at which an object with these units is loaded into a grid of
/// `width` columns and `rows` rows: the policy's pick for the room left around
/// the object's tight bounding box.
pub open spec fn load_anchor(
    units: Seq<Pixel>,
    width: nat,
    rows: nat,
    placement: Option<RenderPlacementConfig>,
) -> DiscreteCoord {
    placement_or_default(placement).anchor_spec(available(units, width as int, rows as int))
}

/// The text that shows one cell: a plain cell is its glyph, an invisible cell a
/// space; a cell with attributes is the escape code of its outermost attribute,
/// then its glyph (a space where the rest of the chain is invisible), then the
/// reset code.
pub open spec fn cell_text(cell: RenderChar) -> Seq<char> {
    match cell.style {
        RenderStyle::Plain => seq![cell.ch],
        RenderStyle::Nil => seq![' '],
        RenderStyle::Styled(attribute, rest) => attribute.esc_code().push(
            if *rest is Nil {
                ' '
            } else {
                cell.ch
            },
        ) + RESET@,
    }
}

/// The text of the cells of a row, left to right.
pub open spec fn cells_text(row: Seq<RenderChar>) -> Seq<char>
    decreases row.len(),
{
    if row.len() == 0 {
        Seq::empty()
    } else {
        cells_text(row.drop_last()) + cell_text(row.last())
    }
}

/// The text of a grid: each row's cells followed by a line feed, top to bottom.
pub open spec fn grid_text(grid: Seq<Seq<RenderChar>>) -> Seq<char>
    decreases grid.len(),
{
    if grid.len() == 0 {
        Seq::empty()
    } else {
        (grid_text(grid.drop_last()) + cells_text(grid.last())).push('\n')
    }
}

/// The owner of the screen buffer. The width is fixed; the buffer grows
/// downwards where a write asks for it, and never shrinks.
pub struct OvertureRenderEngine {
    /// The number of columns, fixed at construction.
    pub width: u32,
    /// The drawables that the engine keeps; loading keeps none.
    pub objects: RenderableList,
    /// The cells, indexed by row, then by column.
    pub buffer: Vec<Vec<RenderChar>>,
}

/// Builds a row of `width` empty cells.
pub fn new_blank_row(width: u32) -> (row: Vec<RenderChar>)
    ensures
        row@ == blank_row(width as nat),
{
    let mut row: Vec<RenderChar> = Vec::new();
    let mut i: u32 = 0;
    while i < width
        invariant
            i <= width,
            row@ == blank_row(i as nat),
        decreases width - i,
    {
        row.push(RenderChar::blank());
        i += 1;
        assert(row@ =~= blank_row(i as nat));
    }
    row
}

impl OvertureRenderEngine {
    /// The buffer as a grid of cells: rows top to bottom, cells left to right.
    pub open spec fn grid(&self) -> Seq<Seq<RenderChar>> {
        Seq::new(self.buffer@.len(), |r: int| self.buffer@[r]@)
    }

    /// Every row of the buffer is `width` cells long.
    pub open spec fn wf(&self) -> bool {
        rectangular(self.grid(), self.width as nat)
    }

    /// An engine of `height` rows and `width` columns, every cell empty.
    pub fn new(width: u32, height: u32) -> (engine: Self)
        ensures
            engine.wf(),
            engine.width == width,
            engine.grid() == grown(Seq::empty(), width as nat, height as nat),
            engine.objects.entries().len() == 0,
    {
        let mut buffer: Vec<Vec<RenderChar>> = Vec::new();
        let mut i: u32 = 0;
        while i < height
            invariant
                i <= height,
                buffer@.len() == i,
                forall|r: int| 0 <= r < i ==> (#[trigger] buffer@[r])@ == blank_row(width as nat),
            decreases height - i,
        {
            buffer.push(new_blank_row(width));
            i += 1;
        }
        let engine = OvertureRenderEngine { width, objects: RenderableList::new(), buffer };
        assert(engine.grid() =~= grown(Seq::empty(), width as nat, height as nat));
        engine
    }

    /// Pads the buffer with blank rows until row `last` exists.
    fn grow_past(&mut self, last: usize)
        requires
            old(self).wf(),
        ensures
            final(self).wf(),
            final(self).width == old(self).width,
            final(self).objects == old(self).objects,
            final(self).grid() == grown(old(self).grid(), old(self).width as nat, last as nat + 1),
    {
        while self.buffer.len() <= last
            invariant
                self.wf(),
                self.width == old(self).width,
                self.objects == old(self).objects,
                self.buffer@.len() >= old(self).buffer@.len(),
                self.buffer@.len() <= last + 1 || self.buffer@.len() == old(self).buffer@.len(),
                self.grid() == grown(old(self).grid(), old(self).width as nat, self.buffer@.len()),
            decreases last + 1 - self.buffer@.len(),
        {
            let ghost before = self.grid();
            self.buffer.push(new_blank_row(self.width));
            assert(self.grid() =~= before.push(blank_row(self.width as nat)));
            assert(self.grid() =~= grown(
                old(self).grid(),
                old(self).width as nat,
                self.buffer@.len(),
            ));
        }
        assert(self.grid() =~= grown(old(self).grid(), old(self).width as nat, last as nat + 1));
    }

    /// Writes `ch` at column `x`, row `y`. The buffer first grows downwards to
    /// reach row `y`; a write at a column outside the width is dropped.
    pub fn set_pixel(&mut self, x: u32, y: u32, ch: RenderChar)
        requires
            old(self).wf(),
        ensures
            final(self).wf(),
            final(self).width == old(self).width,
            final(self).objects == old(self).objects,
            final(self).grid() == put(
                old(self).grid(),
                old(self).width as nat,
                x as nat,
                y as nat,
                ch,
            ),
    {
        let x = x as usize;
        let y = y as usize;
        self.grow_past(y);
        if x < self.width as usize {
            let ghost before = self.grid();
            assert(before.len() > y);
            assert(before[y as int].len() == self.width);
            self.buffer[y][x] = ch;
            assert(self.grid() =~= before.update(y as int, before[y as int].update(x as int, ch)));
        }
    }

    /// The escape sequence that clears the screen, as a line of output.
    pub fn flush(&self) -> (out: String)
        ensures
            out@ == CLEAR_SCREEN@.push('\n'),
    {
        let mut out = String::from_str(CLEAR_SCREEN);
        out.push('\n');
        out
    }

    /// Pads the buffer with blank rows until it has at least `height` rows, and
    /// gives the text that shows it: row after row, each ended by a line feed.
    pub fn render(&mut self, height: u16) -> (out: String)
        requires
            old(self).wf(),
        ensures
            final(self).wf(),
            final(self).width == old(self).width,
            final(self).objects == old(self).objects,
            final(self).grid() == grown(old(self).grid(), old(self).width as nat, height as nat),
            out@ == grid_text(final(self).grid()),
    {
        if height > 0 {
            self.grow_past((height - 1) as usize);
        }
        let mut out = String::new();
        let mut r: usize = 0;
        while r < self.buffer.len()
            invariant
                r <= self.buffer@.len(),
                out@ == grid_text(self.grid().take(r as int)),
            decreases self.buffer@.len() - r,
        {
            let line = &self.buffer[r];
            let ghost head = out@;
            let mut c: usize = 0;
            while c < line.len()
                invariant
                    c <= line@.len(),
                    out@ == head + cells_text(line@.take(c as int)),
                decreases line@.len() - c,
            {
                let ghost before = out@;
                let ch = &line[c];
                match &ch.style {
                    RenderStyle::Plain => out.push(ch.ch),
                    RenderStyle::Nil => out.push(' '),
                    RenderStyle::Styled(attribute, rest) => {
                        let code = attribute.to_esc_code();
                        out.append(code.as_str());
                        match **rest {
                            RenderStyle::Nil => out.push(' '),
                            _ => out.push(ch.ch),
                        }
                        out.append(RESET);
                    },
                }
                proof {
                    assert(line@.take(c + 1).drop_last() =~= line@.take(c as int));
                    assert(out@ =~= before + cell_text(line@[c as int]));
                    assert(out@ =~= head + cells_text(line@.take(c + 1)));
                }
                c += 1;
            }
            out.push('\n');
            proof {
                assert(line@.take(c as int) =~= line@);
                assert(self.grid().take(r + 1).drop_last() =~= self.grid().take(r as int));
                assert(self.grid().take(r + 1).last() == line@);
                assert(out@ =~= grid_text(self.grid().take(r + 1)));
            }
            r += 1;
        }
        assert(self.grid().take(r as int) =~= self.grid());
        out
    }

    /// Places an object and paints it. The anchor is the policy's pick (the top
    /// left corner where none is given) for the room that the object's tight
    /// bounding box leaves in the current grid; the object's own units are painted
    /// at that anchor. An object without units changes nothing.
    pub fn load_renderable<T: Renderable>(
        &mut self,
        obj: T,
        placement: Option<RenderPlacementConfig>,
    )
        requires
            old(self).wf(),
        ensures
            final(self).wf(),
            final(self).width == old(self).width,
            final(self).objects == old(self).objects,
            final(self).grid() == paint(
                old(self).grid(),
                old(self).width as nat,
                obj.units(),
                load_anchor(
                    obj.units(),
                    old(self).width as nat,
                    old(self).grid().len(),
                    placement,
                ),
            ),
            obj.units().len() == 0 ==> final(self).grid() == old(self).grid(),
    {
        let pixels = obj.pixels();
        if pixels.is_empty() {
            return ;
        }
        let (lo, hi) = bounding_corners(&pixels);
        let room = DiscreteCoord::new(
            room_on_axis(self.width as u64, lo.x, hi.x),
            room_on_axis(self.buffer.len() as u64, lo.y, hi.y),
        );
        let policy = match placement {
            Some(p) => p,
            None => RenderPlacementConfig::TopLeft,
        };
        let pos: DiscreteCoord = policy.anchor(room);
        obj.render_at(pos.x, pos.y, self);
    }
}

/// A write below the last row grows the grid to reach its row: the rows that
/// were there stay as they are, and every new cell is blank but the written one.
pub proof fn lemma_put_below_grows(
    grid: Seq<Seq<RenderChar>>,
    width: nat,
    x: nat,
    y: nat,
    ch: RenderChar,
)
    requires
        y >= grid.len(),
    ensures
        put(grid, width, x, y, ch).len() == y + 1,
        forall|r: int| 0 <= r < grid.len() ==> #[trigger] put(grid, width, x, y, ch)[r] == grid[r],
        forall|r: int, c: int|
            grid.len() <= r <= y && 0 <= c < width ==> #[trigger] put(grid, width, x, y, ch)[r][c]
                == (if r == y && c == x {
                ch
            } else {
                RenderChar::blank_spec()
            }),
        forall|r: int|
            grid.len() <= r <= y ==> (#[trigger] put(grid, width, x, y, ch)[r]).len() == width,
{
}

/// A write at a column outside the width, on a row that exists, changes nothing.
pub proof fn lemma_put_outside_width(
    grid: Seq<Seq<RenderChar>>,
    width: nat,
    x: nat,
    y: nat,
    ch: RenderChar,
)
    requires
        x >= width,
        y < grid.len(),
    ensures
        put(grid, width, x, y, ch) == grid,
{
}

/// A write inside the width lands on its cell and changes no other cell that
/// was there.
pub proof fn lemma_put_inside(
    grid: Seq<Seq<RenderChar>>,
    width: nat,
    x: nat,
    y: nat,
    ch: RenderChar,
)
    requires
        rectangular(grid, width),
        x < width,
    ensures
        rectangular(put(grid, width, x, y, ch), width),
        put(grid, width, x, y, ch).len() >= grid.len(),
        put(grid, width, x, y, ch).len() > y,
        put(grid, width, x, y, ch)[y as int][x as int] == ch,
        forall|r: int, c: int|
            0 <= r < grid.len() && 0 <= c < width && !(r == y && c == x) ==> #[trigger] put(
                grid,
                width,
                x,
                y,
                ch,
            )[r][c] == grid[r][c],
{
}

/// Painting keeps the grid rectangular and never removes a row.
pub proof fn lemma_paint_keeps_shape(
    grid: Seq<Seq<RenderChar>>,
    width: nat,
    units: Seq<Pixel>,
    at: DiscreteCoord,
)
    requires
        rectangular(grid, width),
    ensures
        rectangular(paint(grid, width, units, at), width),
        paint(grid, width, units, at).len() >= grid.len(),
    decreases units.len(),
{
    if units.len() > 0 {
        lemma_paint_keeps_shape(grid, width, units.drop_last(), at);
    }
}

/// The last write wins: a cell inside the width shows the content of the last
/// unit that lands on it, whatever was painted there before.
pub proof fn lemma_paint_last_wins(
    grid: Seq<Seq<RenderChar>>,
    width: nat,
    units: Seq<Pixel>,
    at: DiscreteCoord,
    j: int,
)
    requires
        rectangular(grid, width),
        0 <= j < units.len(),
        target(at, units[j]).x < width,
        forall|k: int| j < k < units.len() ==> target(at, #[trigger] units[k]) != target(at, units[j]),
    ensures
        paint(grid, width, units, at).len() > target(at, units[j]).y,
        paint(grid, width, units, at)[target(at, units[j]).y as int][target(at, units[j]).x as int]
            == units[j].content,
    decreases units.len(),
{
    let rest = units.drop_last();
    lemma_paint_keeps_shape(grid, width, rest, at);
    if j < units.len() - 1 {
        assert(rest[j] == units[j]);
        assert forall|k: int| j < k < rest.len() implies target(at, #[trigger] rest[k]) != target(
            at,
            rest[j],
        ) by {
            assert(rest[k] == units[k]);
        }
        lemma_paint_last_wins(grid, width, rest, at, j);
        assert(target(at, units[units.len() - 1]) != target(at, units[j]));
    }
}

/// An object that is loaded later paints over one that was loaded earlier: a
/// cell inside the width shows the content of the last unit of the later object
/// that lands on it, whatever the earlier object painted.
pub proof fn lemma_later_load_wins(
    grid: Seq<Seq<RenderChar>>,
    width: nat,
    earlier: Seq<Pixel>,
    earlier_at: DiscreteCoord,
    later: Seq<Pixel>,
    later_at: DiscreteCoord,
    j: int,
)
    requires
        rectangular(grid, width),
        0 <= j < later.len(),
        target(later_at, later[j]).x < width,
        forall|k: int|
            j < k < later.len() ==> target(later_at, #[trigger] later[k]) != target(
                later_at,
                later[j],
            ),
    ensures
        paint(paint(grid, width, earlier, earlier_at), width, later, later_at).len() > target(
            later_at,
            later[j],
        ).y,
        paint(paint(grid, width, earlier, earlier_at), width, later, later_at)[target(
            later_at,
            later[j],
        ).y as int][target(later_at, later[j]).x as int] == later[j].content,
{
    lemma_paint_keeps_shape(grid, width, earlier, earlier_at);
    lemma_paint_last_wins(paint(grid, width, earlier, earlier_at), width, later, later_at, j);
}

/// Painting leaves a cell as it was where no unit lands on it.
pub proof fn lemma_paint_elsewhere(
    grid: Seq<Seq<RenderChar>>,
    width: nat,
    units: Seq<Pixel>,
    at: DiscreteCoord,
    x: int,
    y: int,
)
    requires
        rectangular(grid, width),
        0 <= y < grid.len(),
        0 <= x < width,
        forall|k: int|
            0 <= k < units.len() ==> target(at, #[trigger] units[k]) != (DiscreteCoord {
                x: x as u32,
                y: y as u32,
            }),
    ensures
        paint(grid, width, units, at).len() > y,
        paint(grid, width, units, at)[y][x] == grid[y][x],
    decreases units.len(),
{
    if units.len() > 0 {
        let rest = units.drop_last();
        lemma_paint_keeps_shape(grid, width, rest, at);
        assert forall|k: int| 0 <= k < rest.len() implies target(at, #[trigger] rest[k]) != (
        DiscreteCoord { x: x as u32, y: y as u32 }) by {
            assert(rest[k] == units[k]);
        }
        lemma_paint_elsewhere(grid, width, rest, at, x, y);
        assert(target(at, units[units.len() - 1]) != (DiscreteCoord { x: x as u32, y: y as u32 }));
    }
}

/// Painting no unit changes nothing.
pub proof fn lemma_paint_nothing(grid: Seq<Seq<RenderChar>>, width: nat, at: DiscreteCoord)
    ensures
        paint(grid, width, Seq::empty(), at) == grid,
{
}

} // verus!
