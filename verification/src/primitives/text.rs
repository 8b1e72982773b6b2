//! Text as a drawable, and text turned into banners of large letters.

use crate::interfaces::geometry::{clamp_u32, DiscreteCoord};
use crate::interfaces::pixels::Pixel;
use crate::interfaces::rendering::{RenderChar, Renderable};
use crate::interfaces::styling::RenderStyle;
use vstd::prelude::*;
use vstd::string::StringExecFns;

verus! {

/// The characters of a string, in order.
pub fn chars_of(s: &str) -> (r: Vec<char>)
    ensures
        r@ == s@,
{
    let mut out: Vec<char> = Vec::new();
    for ch in it: s.chars()
        invariant
            it.seq() == s@,
            out@ == it.seq().take(it.index() as int),
    {
        out.push(ch);
        assert(out@ =~= it.seq().take(it.index() + 1));
    }
    assert(out@ =~= s@);
    out
}

/// The string of the first `n` of the given characters.
fn string_of(chars: &Vec<char>, n: usize) -> (r: String)
    requires
        n <= chars@.len(),
    ensures
        r@ == chars@.take(n as int),
{
    let mut out = String::new();
    let mut i: usize = 0;
    while i < n
        invariant
            i <= n <= chars@.len(),
            out@ == chars@.take(i as int),
        decreases n - i,
    {
        out.push(chars[i]);
        i += 1;
        assert(out@ =~= chars@.take(i as int));
    }
    out
}

/// A line of text and the place of its first character.
pub struct Text {
    pub content: String,
    pub pos: DiscreteCoord,
}

/// A text as a value: its characters and the place of the first one.
pub struct TextView {
    pub content: Seq<char>,
    pub pos: DiscreteCoord,
}

impl View for Text {
    type V = TextView;

    open spec fn view(&self) -> TextView {
        TextView { content: self.content@, pos: self.pos }
    }
}

/// The texts as values, in their order.
pub open spec fn texts_view(texts: Seq<Text>) -> Seq<TextView> {
    Seq::new(texts.len(), |i: int| texts[i]@)
}

/// The unit of character `i` of a text: the plain character, protected, `i`
/// columns to the right of the text's place, clamped at the last column.
pub open spec fn glyph_unit(text: TextView, i: int) -> Pixel {
    Pixel {
        content: RenderChar { ch: text.content[i], style: RenderStyle::Plain },
        position: DiscreteCoord { x: clamp_u32(text.pos.x + i), y: text.pos.y },
        protected: true,
    }
}

/// The units of a text: one per character, left to right.
pub open spec fn glyph_units(text: TextView) -> Seq<Pixel> {
    Seq::new(text.content.len(), |i: int| glyph_unit(text, i))
}

impl Text {
    pub fn new(content: &str, pos: DiscreteCoord) -> (r: Self)
        ensures
            r@ == (TextView { content: content@, pos }),
    {
        Text { content: String::from_str(content), pos }
    }
}

impl Renderable for Text {
    open spec fn units(&self) -> Seq<Pixel> {
        glyph_units(self@)
    }

    /// The number of characters, cut to 32 bits, and the row of the text.
    open spec fn size(&self) -> DiscreteCoord {
        DiscreteCoord { x: self.content@.len() as u32, y: self.pos.y }
    }

    fn pixels(&self) -> (r: Vec<Pixel>) {
        let chars = chars_of(self.content.as_str());
        let mut pixels: Vec<Pixel> = Vec::new();
        let mut pointer = self.pos;
        let mut i: usize = 0;
        while i < chars.len()
            invariant
                i <= chars@.len(),
                chars@ == self.content@,
                pointer == (DiscreteCoord { x: clamp_u32(self.pos.x + i), y: self.pos.y }),
                pixels@ == glyph_units(self@).take(i as int),
            decreases chars@.len() - i,
        {
            pixels.push(Pixel::new_with_char(chars[i], pointer, true));
            pointer = DiscreteCoord::new(pointer.x.saturating_add(1), pointer.y);
            i += 1;
            assert(pixels@ =~= glyph_units(self@).take(i as int));
        }
        assert(glyph_units(self@).take(i as int) =~= glyph_units(self@));
        pixels
    }

    fn dim(&self) -> (r: DiscreteCoord) {
        let count = self.content.as_str().unicode_len();
        DiscreteCoord::new(count as u32, self.pos.y)
    }
}

impl std::ops::Deref for Text {
    type Target = String;

    fn deref(&self) -> (r: &String)
        ensures
            r@ == self.content@,
    {
        &self.content
    }
}

/// A line without the carriage return that may end it.
pub open spec fn without_return(line: Seq<char>) -> Seq<char> {
    if line.len() > 0 && line.last() == '\r' {
        line.drop_last()
    } else {
        line
    }
}

/// The state of reading a text line by line: the lines that a line feed has
/// ended so far, each without a carriage return before that line feed, and the
/// characters read since the last line feed.
pub open spec fn scanned(text: Seq<char>) -> (Seq<Seq<char>>, Seq<char>)
    decreases text.len(),
{
    if text.len() == 0 {
        (Seq::empty(), Seq::empty())
    } else {
        let (done, open) = scanned(text.drop_last());
        if text.last() == '\n' {
            (done.push(without_return(open)), Seq::empty())
        } else {
            (done, open.push(text.last()))
        }
    }
}

/// The lines of a text. A line ends at a line feed, which is not part of it,
/// nor is a carriage return just before that line feed. What follows the last
/// line feed is a line too, unless it is empty.
pub open spec fn split_lines(text: Seq<char>) -> Seq<Seq<char>> {
    let (done, open) = scanned(text);
    if open.len() > 0 {
        done.push(open)
    } else {
        done
    }
}

/// The lines as texts stacked downwards from `pos`: line `i` stands `i` rows
/// below `pos`, clamped at the last row.
pub open spec fn stacked(lines: Seq<Seq<char>>, pos: DiscreteCoord) -> Seq<TextView> {
    Seq::new(
        lines.len(),
        |i: int|
            TextView { content: lines[i], pos: DiscreteCoord { x: pos.x, y: clamp_u32(pos.y + i) } },
    )
}

/// The row that stands `below` rows under `y`, clamped at the last row.
fn row_below(y: u32, below: usize) -> (r: u32)
    ensures
        r == clamp_u32(y + below),
{
    if below > u32::MAX as usize {
        u32::MAX
    } else {
        y.saturating_add(below as u32)
    }
}

/// Splits a banner into its lines and stacks them downwards from `pos`.
pub fn stack_lines(art: &str, pos: DiscreteCoord) -> (texts: Vec<Text>)
    ensures
        texts_view(texts@) == stacked(split_lines(art@), pos),
{
    let mut texts: Vec<Text> = Vec::new();
    let mut open: Vec<char> = Vec::new();
    for ch in it: art.chars()
        invariant
            it.seq() == art@,
            texts_view(texts@) == stacked(scanned(art@.take(it.index() as int)).0, pos),
            open@ == scanned(art@.take(it.index() as int)).1,
    {
        proof {
            assert(art@.take(it.index() + 1).drop_last() =~= art@.take(it.index() as int));
        }
        let ghost done = scanned(art@.take(it.index() as int)).0;
        assert(texts@.len() == texts_view(texts@).len());
        assert(texts@.len() == done.len());
        if ch == '\n' {
            let ghost shown = texts_view(texts@);
            let n = open.len();
            let keep = if n > 0 && open[n - 1] == '\r' {
                n - 1
            } else {
                n
            };
            let content = string_of(&open, keep);
            assert(content@ =~= without_return(open@));
            let y = row_below(pos.y, texts.len());
            texts.push(Text { content, pos: DiscreteCoord::new(pos.x, y) });
            open = Vec::new();
            assert(scanned(art@.take(it.index() + 1)).0 == done.push(content@));
            assert(texts_view(texts@) =~= shown.push(texts@.last()@));
            assert(texts_view(texts@) =~= stacked(done.push(content@), pos));
        } else {
            open.push(ch);
        }
    }
    assert(art@.take(art@.len() as int) =~= art@);
    let ghost done = scanned(art@).0;
    assert(texts@.len() == texts_view(texts@).len());
    assert(texts@.len() == done.len());
    if open.len() > 0 {
        let ghost shown = texts_view(texts@);
        let content = string_of(&open, open.len());
        assert(content@ =~= open@);
        let y = row_below(pos.y, texts.len());
        texts.push(Text { content, pos: DiscreteCoord::new(pos.x, y) });
        assert(texts_view(texts@) =~= shown.push(texts@.last()@));
        assert(texts_view(texts@) =~= stacked(done.push(open@), pos));
    }
    texts
}

/// The font type of the `figlet_rs` crate, carried through unopened.
#[verifier::external_type_specification]
#[verifier::external_body]
pub struct ExFIGfont(figlet_rs::FIGfont);

/// `figlet_rs::FIGfont::standard`: the font that the crate carries with it, or
/// `None` where the crate fails to read it. Nothing is claimed of the font.
#[verifier::external_body]
fn standard_font() -> (font: Option<figlet_rs::FIGfont>) {
    figlet_rs::FIGfont::standard().ok()
}

/// `figlet_rs::FIGfont::convert`, with the figure written out by its `Display`.
/// The two read of the font only the glyph rows it holds and the height in its
/// header, so the text is what those and the message determine. An empty
/// message gets no figure. What a banner looks like is not claimed.
#[verifier::external_body]
fn figure_text(font: &figlet_rs::FIGfont, message: &str) -> (art: Option<String>)
    ensures
        text_of(art) == figlet_banner(font_glyphs(*font), font_height(*font), message@),
        message@.len() == 0 ==> art is None,
{
    match font.convert(message) {
        Some(figure) => Some(figure.to_string()),
        None => None,
    }
}

impl Text {
    /// The text as a banner of large letters: the rows that the given font draws
    /// of the text, stacked downwards from the text's place, or `None` where it
    /// draws none. With no font: the same of the standard font, if it can be had.
    pub fn ascii_art(&self, font: Option<&figlet_rs::FIGfont>) -> (r: Option<Vec<Text>>)
        ensures
            font matches Some(f) ==> rows_view(r) == banner_in(*f, self.content@, self.pos),
            font is None ==> r is None || exists|f: figlet_rs::FIGfont|
                rows_view(r) == #[trigger] banner_in(f, self.content@, self.pos),
            self.content@.len() == 0 ==> r is None,
    {
        match font {
            Some(f) => self.drawn_in(f),
            None => match standard_font() {
                Some(f) => self.drawn_in(&f),
                None => None,
            },
        }
    }

    /// The text as a banner in the standard font: the rows that this font draws
    /// of the text, stacked downwards from the text's place. `None` where the
    /// font draws none, as for an empty text, or where the outside crate fails
    /// to hand out its standard font.
    pub fn ascii_art_default(&self) -> (r: Option<Vec<Text>>)
        ensures
            r is None || exists|f: figlet_rs::FIGfont|
                rows_view(r) == #[trigger] banner_in(f, self.content@, self.pos),
            self.content@.len() == 0 ==> r is None,
    {
        self.ascii_art(None)
    }
}

impl Text {
    /// The rows that the font draws of the text, stacked downwards from the
    /// text's place; `None` where it draws none.
    fn drawn_in(&self, font: &figlet_rs::FIGfont) -> (r: Option<Vec<Text>>)
        ensures
            rows_view(r) == banner_in(*font, self.content@, self.pos),
            self.content@.len() == 0 ==> r is None,
    {
        banner_texts(figure_text(font, self.content.as_str()), self.pos)
    }
}

/// What a font holds: for each character code that it knows, the rows of that
/// character's glyph, top to bottom.
pub uninterp spec fn font_glyphs(font: figlet_rs::FIGfont) -> Map<u32, Seq<Seq<char>>>;

/// The number of rows that the header of a font gives to its glyphs.
pub uninterp spec fn font_height(font: figlet_rs::FIGfont) -> int;

/// The banner that `figlet_rs` draws of a message with the glyphs and the
/// height of a font, written out as text; `None` where it draws none.
pub uninterp spec fn figlet_banner(
    glyphs: Map<u32, Seq<Seq<char>>>,
    height: int,
    message: Seq<char>,
) -> Option<Seq<char>>;

/// A banner as a value: its characters, where there is one.
pub open spec fn text_of(art: Option<String>) -> Option<Seq<char>> {
    match art {
        Some(a) => Some(a@),
        None => None,
    }
}

/// Rows of text as values, where there are any.
pub open spec fn rows_view(rows: Option<Vec<Text>>) -> Option<Seq<TextView>> {
    match rows {
        Some(texts) => Some(texts_view(texts@)),
        None => None,
    }
}

/// The rows of a banner: its lines, stacked downwards from `pos`; none where
/// there is no banner.
pub open spec fn banner_rows(art: Option<Seq<char>>, pos: DiscreteCoord) -> Option<Seq<TextView>> {
    match art {
        Some(a) => Some(stacked(split_lines(a), pos)),
        None => None,
    }
}

/// The rows of the banner that a font gives of a message, stacked downwards
/// from `pos`.
pub open spec fn banner_in(
    font: figlet_rs::FIGfont,
    message: Seq<char>,
    pos: DiscreteCoord,
) -> Option<Seq<TextView>> {
    banner_rows(figlet_banner(font_glyphs(font), font_height(font), message), pos)
}

/// Turns a banner into rows of text: its lines, stacked downwards from `pos`.
/// No banner gives no rows.
pub fn banner_texts(art: Option<String>, pos: DiscreteCoord) -> (r: Option<Vec<Text>>)
    ensures
        rows_view(r) == banner_rows(text_of(art), pos),
{
    match art {
        Some(a) => Some(stack_lines(a.as_str(), pos)),
        None => None,
    }
}

/// The lower-case form of an ASCII capital; any other character itself.
pub open spec fn ascii_lower(c: char) -> char {
    if 'A' <= c <= 'Z' {
        ((c as u8) + 32) as char
    } else {
        c
    }
}

/// Whether two texts are equal up to the case of their ASCII letters.
pub open spec fn same_ignoring_ascii_case(a: Seq<char>, b: Seq<char>) -> bool {
    a.len() == b.len() && forall|i: int| 0 <= i < a.len() ==> ascii_lower(a[i]) == ascii_lower(b[i])
}

fn lower_ascii(c: char) -> (r: char)
    ensures
        r == ascii_lower(c),
{
    if 'A' <= c && c <= 'Z' {
        ((c as u8) + 32) as char
    } else {
        c
    }
}

/// Compares two texts up to the case of their ASCII letters.
pub fn eq_ignoring_ascii_case(a: &str, b: &str) -> (r: bool)
    ensures
        r == same_ignoring_ascii_case(a@, b@),
{
    let x = chars_of(a);
    let y = chars_of(b);
    if x.len() != y.len() {
        return false;
    }
    let mut i: usize = 0;
    while i < x.len()
        invariant
            i <= x@.len(),
            x@.len() == y@.len(),
            x@ == a@,
            y@ == b@,
            forall|j: int| 0 <= j < i ==> ascii_lower(x@[j]) == ascii_lower(y@[j]),
        decreases x@.len() - i,
    {
        if lower_ascii(x[i]) != lower_ascii(y[i]) {
            return false;
        }
        i += 1;
    }
    true
}

/// The lower-case form of a text, as `str::to_lowercase` gives it.
pub uninterp spec fn lowercase(s: Seq<char>) -> Seq<char>;

/// `str::to_lowercase`: the text with every character replaced by its
/// lower-case form under the Unicode rules.
#[verifier::external_body]
fn to_lowercase(s: &str) -> (r: String)
    ensures
        r@ == lowercase(s@),
{
    s.to_lowercase()
}

/// Where the font of a given name is found.
pub enum FontSource {
    /// The font that comes with the banner generator.
    Standard,
    /// A font file, by its path.
    File(String),
}

/// The path of the font file for a font name: the lower-case name with the
/// extension `flf`, in the directory `fonts`.
pub open spec fn font_path(name: Seq<char>) -> Seq<char> {
    "fonts/"@ + lowercase(name) + ".flf"@
}

/// Where the font named `name` is found: the name `standard`, in any case of
/// its letters, is the standard font; any other name is a font file.
pub fn font_source(name: &str) -> (r: FontSource)
    ensures
        same_ignoring_ascii_case(name@, "standard"@) ==> r is Standard,
        !same_ignoring_ascii_case(name@, "standard"@) ==> (r matches FontSource::File(path)
            && path@ == font_path(name@)),
{
    if eq_ignoring_ascii_case(name, "standard") {
        FontSource::Standard
    } else {
        let mut path = String::from_str("fonts/");
        let lower = to_lowercase(name);
        path.append(lower.as_str());
        path.append(".flf");
        FontSource::File(path)
    }
}

} // verus!
