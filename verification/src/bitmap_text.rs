//! Text drawn from a bitmap font: every character in a cell of a fixed size,
//! the lines wrapped where the next cluster would not fit.

use vstd::prelude::*;
use crate::number::{Percentage, plus, times, scale, larger};
use crate::number::{plus_spec, times_spec, scale_spec, larger_spec};
use crate::error::LayoutError;
use crate::handles::Handle;
use crate::location::{Length, Location, ScreenSize};
use crate::measured::Glyph;
use crate::tile::Tile;
use crate::units::{RealPosition, RealSize, SmallestSize};
use crate::unicode::{char_offset, char_offset_spec, char_width, char_width_spec, graphemes, grapheme_clusters, joined_spec, lines, lines_spec};

verus! {

/// RGB color.
///
/// Each color channel is a fraction from zero to one.
#[derive(Clone, Copy, Debug, PartialEq, Eq, Structural)]
pub struct ColorRgb {
    pub r: Percentage,
    pub g: Percentage,
    pub b: Percentage,
}

impl Default for ColorRgb {
    /// Black.
    fn default() -> (r: Self)
        ensures
            r == (ColorRgb { r: 0, g: 0, b: 0 }),
    {
        ColorRgb { r: 0, g: 0, b: 0 }
    }
}

/// Size of each character.
///
/// This is the size of a half-width Unicode character.
///
/// A full-width Unicode character will be double the width of the [`CharSize`].
///
/// # Sizing
///
/// * [`Length::ParentWidth`]: the width is relative to the node's width minus padding.
///
/// * [`Length::ParentHeight`]: the height is relative to the node's height minus padding.
///
/// * [`Length::SmallestWidth`]: it is an error to use `SmallestWidth`.
///
/// * [`Length::SmallestHeight`]: it is an error to use `SmallestHeight`.
#[derive(Clone, Copy, Debug, PartialEq, Eq, Structural)]
pub struct CharSize {
    pub width: Length,
    pub height: Length,
}

impl CharSize {
    /// The size of a narrow character inside `parent`; the width is resolved
    /// first.
    pub open spec fn to_screen_spec(self, parent: SmallestSize, screen: ScreenSize) -> Result<RealSize, LayoutError> {
        match self.width.known_spec(parent, screen.width) {
            Err(e) => Err(e),
            Ok(width) => match self.height.known_spec(parent, screen.height) {
                Err(e) => Err(e),
                Ok(height) => Ok(RealSize { width, height }),
            },
        }
    }

    /// Resolves the size of a narrow character.
    pub fn to_screen(&self, parent: &SmallestSize, screen: &ScreenSize) -> (r: Result<RealSize, LayoutError>)
        ensures
            r == self.to_screen_spec(*parent, *screen),
    {
        match self.width.known(parent, &screen.width) {
            Err(e) => Err(e),
            Ok(width) => match self.height.known(parent, &screen.height) {
                Err(e) => Err(e),
                Ok(height) => Ok(RealSize { width, height }),
            },
        }
    }
}

/// The characters that a font has a picture for, and the one that stands in
/// for the rest.
#[derive(Clone, Copy, Debug, PartialEq, Eq, Structural)]
pub struct BitmapFontSupported {
    pub start: char,
    pub end: char,
    pub replace: char,
}

impl BitmapFontSupported {
    /// The character that is drawn for `c`.
    pub open spec fn replace_spec(self, c: char) -> char {
        if (c as u32) < (self.start as u32) || (c as u32) > (self.end as u32) {
            self.replace
        } else {
            c
        }
    }

    /// Returns the character that is drawn for `c`: `c` itself if the font
    /// has it, else the replacement.
    pub fn replace(&self, c: char) -> (r: char)
        ensures
            r == self.replace_spec(c),
    {
        if (c as u32) < (self.start as u32) || (c as u32) > (self.end as u32) {
            self.replace
        } else {
            c
        }
    }
}

/// A font whose characters are tiles of a texture.
#[derive(Clone, Copy, Debug, PartialEq, Eq, Structural)]
pub struct BitmapFont {
    pub handle: Handle,
}

impl BitmapFont {
    /// The font that `handle` names.
    pub fn new(handle: Handle) -> (r: Self)
        ensures
            r.handle == handle,
    {
        BitmapFont { handle }
    }
}

/// What the renderer knows of a font that is loaded.
#[derive(Clone, Copy, Debug, PartialEq, Eq, Structural)]
pub struct BitmapFontState {
    /// The number of characters in each row of the texture.
    pub columns: u32,
    /// The width of a narrow character, in pixels.
    pub tile_width: u32,
    /// The height of a character, in pixels.
    pub tile_height: u32,
    /// The characters that the texture holds.
    pub supported: BitmapFontSupported,
}

impl BitmapFontState {
    /// The tile of the character `c`, `width` narrow characters wide. The
    /// characters lie in rows of `columns`, in the order of their code
    /// points, each in a cell that is two narrow characters wide. There is
    /// no tile in a font without columns, nor where a coordinate of the tile
    /// or the width of a cell is beyond the reach of `u32`.
    pub open spec fn tile_spec(self, c: char, width: u32) -> Option<Tile> {
        if self.columns == 0 {
            None
        } else {
            let index = c as u32 as int;
            let row = index / (self.columns as int);
            let column = index % (self.columns as int);
            let cell = self.tile_width * 2;
            let start_x = column * cell;
            let start_y = row * self.tile_height;
            let end_x = start_x + self.tile_width * width;
            let end_y = start_y + self.tile_height;
            if cell > u32::MAX || start_x > u32::MAX || start_y > u32::MAX || self.tile_width * width > u32::MAX
                || end_x > u32::MAX || end_y > u32::MAX {
                None
            } else {
                Some(Tile { start_x: start_x as u32, start_y: start_y as u32, end_x: end_x as u32, end_y: end_y as u32 })
            }
        }
    }

    /// Finds the tile of a character in the font's texture.
    pub fn tile(&self, c: char, width: u32) -> (r: Option<Tile>)
        ensures
            r == self.tile_spec(c, width),
    {
        if self.columns == 0 {
            return None;
        }
        let index = c as u32;
        let row = index / self.columns;
        let column = index % self.columns;
        let cell: u64 = self.tile_width as u64 * 2;
        if cell > u32::MAX as u64 {
            return None;
        }
        assert(0 <= column * cell <= 0xffff_ffff * 0xffff_ffff) by (nonlinear_arith)
            requires
                0 <= column <= 0xffff_ffff,
                0 <= cell <= 0xffff_ffff,
        ;
        let start_x: u64 = column as u64 * cell;
        if start_x > u32::MAX as u64 {
            return None;
        }
        assert(0 <= row * self.tile_height <= 0xffff_ffff * 0xffff_ffff) by (nonlinear_arith)
            requires
                0 <= row <= 0xffff_ffff,
                0 <= self.tile_height <= 0xffff_ffff,
        ;
        let start_y: u64 = row as u64 * self.tile_height as u64;
        if start_y > u32::MAX as u64 {
            return None;
        }
        assert(0 <= self.tile_width * width <= 0xffff_ffff * 0xffff_ffff) by (nonlinear_arith)
            requires
                0 <= self.tile_width <= 0xffff_ffff,
                0 <= width <= 0xffff_ffff,
        ;
        let wide: u64 = self.tile_width as u64 * width as u64;
        if wide > u32::MAX as u64 {
            return None;
        }
        let end_x: u64 = start_x + wide;
        let end_y: u64 = start_y + self.tile_height as u64;
        if end_x > u32::MAX as u64 || end_y > u32::MAX as u64 {
            return None;
        }
        Some(Tile { start_x: start_x as u32, start_y: start_y as u32, end_x: end_x as u32, end_y: end_y as u32 })
    }
}

/// Displays text which is stored in a spritesheet.
///
/// # Layout
///
/// Automatically wraps the text to the next line when
/// there isn't enough horizontal space.
///
/// # Sizing
///
/// * [`Length::SmallestWidth`]: the width of the text laid out on one line.
///
/// * [`Length::SmallestHeight`]: the height of the text (with wrapping).
pub struct BitmapText {
    pub visible: bool,
    pub location: Location,
    /// The font, which every text must have.
    pub font: Option<BitmapFont>,
    /// The size of a character, which every text must have.
    pub char_size: Option<CharSize>,
    /// The characters to display.
    pub text: Vec<char>,
    pub text_color: ColorRgb,
    /// The spacing between each line of text.
    pub line_spacing: Length,
}

/// The sizes that a text is laid out with.
#[derive(Clone, Copy, Debug, PartialEq, Eq, Structural)]
pub struct Metrics {
    /// The size of a narrow character.
    pub char_size: RealSize,
    /// How far below each other the lines begin.
    pub line_height: Percentage,
    /// The width beyond which a line is wrapped, if there is one.
    pub bound: Option<Percentage>,
}

/// Where the layout of a text stands.
#[derive(Clone, Copy, Debug, PartialEq, Eq, Structural)]
pub struct Pen {
    /// The width of the current line so far.
    pub width: Percentage,
    /// Where the next cluster begins.
    pub position: RealPosition,
    /// The size of everything that was laid out.
    pub size: RealSize,
}

/// The largest width among the first `n` characters of a cluster, if it has
/// any.
pub open spec fn cluster_width_spec(cluster: Seq<char>, n: int) -> Option<u32>
    decreases n,
{
    if n <= 0 || n > cluster.len() {
        None
    } else {
        match cluster_width_spec(cluster, n - 1) {
            None => Some(char_width_spec(cluster[n - 1])),
            Some(w) => Some(if char_width_spec(cluster[n - 1]) > w { char_width_spec(cluster[n - 1]) } else { w }),
        }
    }
}

/// The number of characters of the first `n` lines.
pub open spec fn char_count_spec(text_lines: Seq<Seq<char>>, n: int) -> nat
    decreases n,
{
    if n <= 0 || n > text_lines.len() {
        0
    } else {
        char_count_spec(text_lines, n - 1) + text_lines[n - 1].len()
    }
}

/// Only a cluster without characters has no width.
pub proof fn lemma_cluster_has_width(cluster: Seq<char>, n: int)
    requires
        0 <= n <= cluster.len(),
    ensures
        cluster_width_spec(cluster, n) is None <==> n == 0,
    decreases n,
{
    if n > 0 {
        lemma_cluster_has_width(cluster, n - 1);
    }
}

/// The number of cells that a cluster of width `width` is drawn in: a
/// cluster without width takes two.
pub open spec fn display_width_spec(width: u32) -> u32 {
    if width == 0 {
        2
    } else {
        width
    }
}

impl Metrics {
    /// The width of a cluster on the screen.
    pub open spec fn advance_spec(self, width: u32) -> Percentage {
        scale_spec(self.char_size.width as int, display_width_spec(width) as int, 1) as i64
    }

    /// Whether a cluster that is `advance` wide starts a new line: the line
    /// has width already, and with the cluster it would pass the bound.
    pub open spec fn wraps_spec(self, pen: Pen, advance: Percentage) -> bool {
        let reach = plus_spec(pen.width as int, advance as int);
        reach > advance && match self.bound {
            Some(bound) => reach > bound,
            None => false,
        }
    }

    /// Where a cluster of width `width` is drawn.
    pub open spec fn origin_spec(self, pen: Pen, width: u32) -> RealPosition {
        if self.wraps_spec(pen, self.advance_spec(width)) {
            RealPosition { x: 0, y: plus_spec(pen.position.y as int, self.line_height as int) as i64 }
        } else {
            pen.position
        }
    }

    /// The layout after a cluster of width `width`.
    pub open spec fn after_cluster_spec(self, pen: Pen, width: u32) -> Pen {
        let advance = self.advance_spec(width);
        let origin = self.origin_spec(pen, width);
        let reach = if self.wraps_spec(pen, advance) {
            advance
        } else {
            plus_spec(pen.width as int, advance as int) as i64
        };
        Pen {
            width: reach,
            position: RealPosition { x: reach, y: origin.y },
            size: RealSize {
                width: larger_spec(pen.size.width as int, reach as int) as i64,
                height: larger_spec(pen.size.height as int, plus_spec(origin.y as int, self.char_size.height as int)) as i64,
            },
        }
    }

    /// The size of every glyph: two narrow characters wide.
    pub open spec fn glyph_size_spec(self) -> RealSize {
        RealSize {
            width: scale_spec(self.char_size.width as int, 2, 1) as i64,
            height: self.char_size.height,
        }
    }

    /// The glyph of the character `c` of a cluster of width `width` that is
    /// drawn at `origin`.
    pub open spec fn glyph_spec(self, c: char, width: u32, origin: RealPosition) -> Glyph {
        Glyph {
            character: c,
            position: RealPosition {
                x: plus_spec(origin.x as int, times_spec(char_offset_spec(c, width) as int, self.char_size.width as int)) as i64,
                y: origin.y,
            },
            size: self.glyph_size_spec(),
        }
    }

    /// The glyphs of a cluster: one for each of its characters, all at the
    /// same place but for their offsets.
    pub open spec fn cluster_glyphs_spec(self, cluster: Seq<char>, width: u32, origin: RealPosition) -> Seq<Glyph> {
        Seq::new(cluster.len(), |i: int| self.glyph_spec(cluster[i], width, origin))
    }

    /// The layout after the first `n` clusters of a line that starts at
    /// `start`, and the glyphs of those clusters.
    pub open spec fn line_spec(self, clusters: Seq<Seq<char>>, start: Pen, n: int) -> (Pen, Seq<Glyph>)
        decreases n,
    {
        if n <= 0 || n > clusters.len() {
            (start, Seq::empty())
        } else {
            let (pen, glyphs) = self.line_spec(clusters, start, n - 1);
            let cluster = clusters[n - 1];
            match cluster_width_spec(cluster, cluster.len() as int) {
                None => (pen, glyphs),
                Some(width) => (
                    self.after_cluster_spec(pen, width),
                    glyphs + self.cluster_glyphs_spec(cluster, width, self.origin_spec(pen, width)),
                ),
            }
        }
    }

    /// The layout before the line that follows a line which ended at `pen`.
    pub open spec fn next_line_spec(self, pen: Pen) -> Pen {
        Pen {
            width: 0,
            position: RealPosition { x: 0, y: plus_spec(pen.position.y as int, self.line_height as int) as i64 },
            size: pen.size,
        }
    }

    /// The layout after the first `n` lines of a text, and their glyphs.
    pub open spec fn text_spec(self, text_lines: Seq<Seq<char>>, n: int) -> (Pen, Seq<Glyph>)
        decreases n,
    {
        if n <= 0 || n > text_lines.len() {
            (Pen { width: 0, position: RealPosition { x: 0, y: 0 }, size: RealSize { width: 0, height: 0 } }, Seq::empty())
        } else {
            let (pen, glyphs) = self.text_spec(text_lines, n - 1);
            let clusters = grapheme_clusters(text_lines[n - 1]);
            let (end, more) = self.line_spec(clusters, pen, clusters.len() as int);
            (self.next_line_spec(end), glyphs + more)
        }
    }

    /// The glyphs of a text and the size that they take.
    pub open spec fn layout_spec(self, text: Seq<char>) -> (Seq<Glyph>, RealSize) {
        let text_lines = lines_spec(text);
        let (pen, glyphs) = self.text_spec(text_lines, text_lines.len() as int);
        (glyphs, pen.size)
    }

    fn cluster_width(cluster: &Vec<char>) -> (r: Option<u32>)
        ensures
            r == cluster_width_spec(cluster@, cluster@.len() as int),
            r is Some ==> r->Some_0 <= 3,
    {
        let mut width: Option<u32> = None;
        let mut i: usize = 0;
        while i < cluster.len()
            invariant
                0 <= i <= cluster@.len(),
                width == cluster_width_spec(cluster@, i as int),
                width is Some ==> width->Some_0 <= 3,
            decreases cluster@.len() - i,
        {
            let w = char_width(cluster[i]);
            width = match width {
                None => Some(w),
                Some(old_width) => Some(if w > old_width { w } else { old_width }),
            };
            i = i + 1;
        }
        width
    }

    /// Lays out the text: returns its glyphs and the size that they take.
    /// There is one glyph for each character of each line.
    pub fn layout(&self, text: &Vec<char>) -> (r: (Vec<Glyph>, RealSize))
        ensures
            r.0@ == self.layout_spec(text@).0,
            r.1 == self.layout_spec(text@).1,
            r.0@.len() == char_count_spec(lines_spec(text@), lines_spec(text@).len() as int),
    {
        let glyph_size = RealSize { width: scale(self.char_size.width, 2, 1), height: self.char_size.height };
        let mut glyphs: Vec<Glyph> = Vec::new();
        let mut pen = Pen { width: 0, position: RealPosition { x: 0, y: 0 }, size: RealSize { width: 0, height: 0 } };
        let text_lines = lines(text);
        let ghost all_lines = lines_spec(text@);
        let mut l: usize = 0;
        while l < text_lines.len()
            invariant
                0 <= l <= text_lines@.len(),
                text_lines@.len() == all_lines.len(),
                forall|i: int| 0 <= i < text_lines@.len() ==> (#[trigger] text_lines@[i])@ == all_lines[i],
                glyph_size == self.glyph_size_spec(),
                pen == self.text_spec(all_lines, l as int).0,
                glyphs@ == self.text_spec(all_lines, l as int).1,
                glyphs@.len() == char_count_spec(all_lines, l as int),
            decreases text_lines@.len() - l,
        {
            let clusters = graphemes(&text_lines[l]);
            let ghost all_clusters = grapheme_clusters(all_lines[l as int]);
            let ghost start = pen;
            let ghost before = glyphs@;
            let mut k: usize = 0;
            while k < clusters.len()
                invariant
                    0 <= k <= clusters@.len(),
                    clusters@.len() == all_clusters.len(),
                    forall|i: int| 0 <= i < clusters@.len() ==> (#[trigger] clusters@[i])@ == all_clusters[i],
                    glyph_size == self.glyph_size_spec(),
                    pen == self.line_spec(all_clusters, start, k as int).0,
                    glyphs@ == before + self.line_spec(all_clusters, start, k as int).1,
                    glyphs@.len() == before.len() + joined_spec(all_clusters, k as int).len(),
                decreases clusters@.len() - k,
            {
                let cluster = &clusters[k];
                assert(cluster@ == all_clusters[k as int]);
                proof {
                    lemma_cluster_has_width(cluster@, cluster@.len() as int);
                }
                match Self::cluster_width(cluster) {
                    None => {},
                    Some(width) => {
                        let display: u32 = if width == 0 { 2 } else { width };
                        let advance = scale(self.char_size.width, display as i64, 1);
                        let mut reach = plus(pen.width, advance);
                        let mut origin = pen.position;
                        let over = match self.bound {
                            Some(bound) => reach > bound,
                            None => false,
                        };
                        if reach > advance && over {
                            reach = advance;
                            origin = RealPosition { x: 0, y: plus(pen.position.y, self.line_height) };
                        }
                        let ghost line_glyphs = glyphs@;
                        let mut c: usize = 0;
                        while c < cluster.len()
                            invariant
                                0 <= c <= cluster@.len(),
                                glyph_size == self.glyph_size_spec(),
                                glyphs@ == line_glyphs + self.cluster_glyphs_spec(cluster@, width, origin).subrange(0, c as int),
                                glyphs@.len() == line_glyphs.len() + c,
                            decreases cluster@.len() - c,
                        {
                            let character = cluster[c];
                            let x = plus(origin.x, times(char_offset(character, width), self.char_size.width));
                            glyphs.push(Glyph {
                                character,
                                position: RealPosition { x, y: origin.y },
                                size: glyph_size,
                            });
                            proof {
                                let all = self.cluster_glyphs_spec(cluster@, width, origin);
                                assert(all.subrange(0, c as int + 1) =~= all.subrange(0, c as int).push(all[c as int]));
                            }
                            c = c + 1;
                        }
                        proof {
                            let all = self.cluster_glyphs_spec(cluster@, width, origin);
                            assert(all.subrange(0, cluster@.len() as int) =~= all);
                            assert(before + (self.line_spec(all_clusters, start, k as int).1 + all)
                                =~= (before + self.line_spec(all_clusters, start, k as int).1) + all);
                        }
                        pen = Pen {
                            width: reach,
                            position: RealPosition { x: reach, y: origin.y },
                            size: RealSize {
                                width: larger(pen.size.width, reach),
                                height: larger(pen.size.height, plus(origin.y, self.char_size.height)),
                            },
                        };
                    },
                }
                k = k + 1;
            }
            proof {
                let more = self.line_spec(all_clusters, start, all_clusters.len() as int).1;
                assert(glyphs@ == before + more);
                assert(joined_spec(all_clusters, all_clusters.len() as int) == all_lines[l as int]);
            }
            pen = Pen {
                width: 0,
                position: RealPosition { x: 0, y: plus(pen.position.y, self.line_height) },
                size: pen.size,
            };
            l = l + 1;
        }
        (glyphs, pen.size)
    }
}

impl Metrics {
    /// The width of the first `n` clusters of a line that is not wrapped:
    /// their widths on the screen, added up.
    pub open spec fn line_width_spec(self, clusters: Seq<Seq<char>>, n: int) -> Percentage
        decreases n,
    {
        if n <= 0 || n > clusters.len() {
            0
        } else {
            let before = self.line_width_spec(clusters, n - 1);
            match cluster_width_spec(clusters[n - 1], clusters[n - 1].len() as int) {
                None => before,
                Some(width) => plus_spec(before as int, self.advance_spec(width) as int) as i64,
            }
        }
    }

    /// The width of the longest of the first `n` lines of a text that is
    /// not wrapped.
    pub open spec fn longest_spec(self, text_lines: Seq<Seq<char>>, n: int) -> Percentage
        decreases n,
    {
        if n <= 0 || n > text_lines.len() {
            0
        } else {
            let clusters = grapheme_clusters(text_lines[n - 1]);
            larger_spec(
                self.longest_spec(text_lines, n - 1) as int,
                self.line_width_spec(clusters, clusters.len() as int) as int,
            ) as i64
        }
    }

    /// A text without characters has no glyphs and no size.
    pub proof fn lemma_empty_text(self)
        ensures
            self.layout_spec(Seq::<char>::empty()).0 == Seq::<Glyph>::empty(),
            self.layout_spec(Seq::<char>::empty()).1 == (RealSize { width: 0, height: 0 }),
    {
        assert(lines_spec(Seq::<char>::empty()) =~= Seq::<Seq<char>>::empty());
    }

    /// Without a bound a line is never wrapped: every cluster stays on the
    /// height at which the line began, the line grows by the width of each
    /// cluster, and the laid out width is that of the line if the line is
    /// the widest so far.
    pub proof fn lemma_unbounded_line(self, clusters: Seq<Seq<char>>, start: Pen, n: int)
        requires
            self.bound is None,
            self.char_size.width >= 0,
            0 <= n <= clusters.len(),
            start.width == 0,
            start.size.width >= 0,
        ensures
            ({
                let pen = self.line_spec(clusters, start, n).0;
                &&& pen.position.y == start.position.y
                &&& pen.width == self.line_width_spec(clusters, n)
                &&& pen.width >= 0
                &&& pen.size.width == larger_spec(start.size.width as int, pen.width as int)
            }),
        decreases n,
    {
        if n > 0 {
            self.lemma_unbounded_line(clusters, start, n - 1);
            let cluster = clusters[n - 1];
            match cluster_width_spec(cluster, cluster.len() as int) {
                None => {},
                Some(width) => {
                    let display = display_width_spec(width);
                    assert(0 <= self.char_size.width * display) by (nonlinear_arith)
                        requires
                            0 <= self.char_size.width,
                            0 <= display,
                    ;
                    assert(self.advance_spec(width) >= 0);
                },
            }
        }
    }

    /// Without a bound a text is as wide as its longest line.
    pub proof fn lemma_unbounded_text(self, text_lines: Seq<Seq<char>>, n: int)
        requires
            self.bound is None,
            self.char_size.width >= 0,
            0 <= n <= text_lines.len(),
        ensures
            ({
                let pen = self.text_spec(text_lines, n).0;
                &&& pen.width == 0
                &&& pen.size.width == self.longest_spec(text_lines, n)
                &&& pen.size.width >= 0
            }),
        decreases n,
    {
        if n > 0 {
            self.lemma_unbounded_text(text_lines, n - 1);
            let clusters = grapheme_clusters(text_lines[n - 1]);
            let start = self.text_spec(text_lines, n - 1).0;
            self.lemma_unbounded_line(clusters, start, clusters.len() as int);
        }
    }

    /// The upper edge of line `j`: `j` line heights below the upper edge of
    /// the text.
    pub open spec fn line_top_spec(self, j: int) -> Percentage
        decreases j,
    {
        if j <= 0 {
            0
        } else {
            plus_spec(self.line_top_spec(j - 1) as int, self.line_height as int) as i64
        }
    }

    /// Lines of a height that is not negative lie below each other, as long
    /// as the numbers reach.
    pub proof fn lemma_line_tops(self, j: int)
        requires
            0 <= j,
            0 <= self.line_height,
        ensures
            0 <= self.line_top_spec(j) <= self.line_top_spec(j + 1),
            j * self.line_height <= i64::MAX ==> self.line_top_spec(j) == j * self.line_height,
        decreases j,
    {
        if j > 0 {
            self.lemma_line_tops(j - 1);
            assert((j - 1) * self.line_height <= j * self.line_height
                && j * self.line_height == (j - 1) * self.line_height + self.line_height) by (nonlinear_arith)
                requires
                    0 <= self.line_height,
            ;
        }
    }

    /// Without a bound every glyph of a line is drawn at the height at which
    /// the line began; and the laid out height grows to the lower edge of
    /// the line's characters as soon as the line has a glyph.
    pub proof fn lemma_unbounded_line_glyphs(self, clusters: Seq<Seq<char>>, start: Pen, n: int)
        requires
            self.bound is None,
            0 <= n <= clusters.len(),
        ensures
            self.line_spec(clusters, start, n).0.position.y == start.position.y,
            forall|i: int| 0 <= i < self.line_spec(clusters, start, n).1.len()
                ==> (#[trigger] self.line_spec(clusters, start, n).1[i]).position.y == start.position.y,
            self.line_spec(clusters, start, n).1.len() == 0 ==> self.line_spec(clusters, start, n).0.size.height == start.size.height,
            self.line_spec(clusters, start, n).1.len() > 0 ==> self.line_spec(clusters, start, n).0.size.height
                == larger_spec(start.size.height as int, plus_spec(start.position.y as int, self.char_size.height as int)),
        decreases n,
    {
        if n > 0 {
            self.lemma_unbounded_line_glyphs(clusters, start, n - 1);
            let cluster = clusters[n - 1];
            lemma_cluster_has_width(cluster, cluster.len() as int);
        }
    }

    /// The glyphs of the first lines of a text are the first glyphs of the
    /// text.
    pub proof fn lemma_text_glyphs_grow(self, text_lines: Seq<Seq<char>>, j: int, n: int)
        requires
            0 <= j <= n <= text_lines.len(),
        ensures
            self.text_spec(text_lines, j).1.len() <= self.text_spec(text_lines, n).1.len(),
            forall|i: int| 0 <= i < self.text_spec(text_lines, j).1.len()
                ==> self.text_spec(text_lines, n).1[i] == self.text_spec(text_lines, j).1[i],
        decreases n - j,
    {
        if j < n {
            self.lemma_text_glyphs_grow(text_lines, j, n - 1);
        }
    }

    /// Without a bound line `j` of a text begins `j` line heights below the
    /// upper edge, and each of its glyphs is drawn there: the glyphs of line
    /// `j` are those that come after the glyphs of the lines before it.
    pub proof fn lemma_unbounded_rows(self, text_lines: Seq<Seq<char>>, n: int, j: int, i: int)
        requires
            self.bound is None,
            0 <= j < n <= text_lines.len(),
            self.text_spec(text_lines, j).1.len() <= i < self.text_spec(text_lines, j + 1).1.len(),
        ensures
            i < self.text_spec(text_lines, n).1.len(),
            self.text_spec(text_lines, n).1[i].position.y == self.line_top_spec(j),
    {
        self.lemma_unbounded_top(text_lines, j);
        let start = self.text_spec(text_lines, j).0;
        let clusters = grapheme_clusters(text_lines[j]);
        self.lemma_unbounded_line_glyphs(clusters, start, clusters.len() as int);
        self.lemma_text_glyphs_grow(text_lines, j + 1, n);
        let before = self.text_spec(text_lines, j).1;
        let more = self.line_spec(clusters, start, clusters.len() as int).1;
        assert(self.text_spec(text_lines, j + 1).1 == before + more);
        assert((before + more)[i] == more[i - before.len()]);
    }

    /// Without a bound the pen is at the upper edge of the next line after
    /// each line.
    pub proof fn lemma_unbounded_top(self, text_lines: Seq<Seq<char>>, n: int)
        requires
            self.bound is None,
            0 <= n <= text_lines.len(),
        ensures
            self.text_spec(text_lines, n).0.position.y == self.line_top_spec(n),
        decreases n,
    {
        if n > 0 {
            self.lemma_unbounded_top(text_lines, n - 1);
            let clusters = grapheme_clusters(text_lines[n - 1]);
            self.lemma_unbounded_line_glyphs(clusters, self.text_spec(text_lines, n - 1).0, clusters.len() as int);
        }
    }

    /// Without a bound, and with sizes that are not negative, a text is
    /// never higher than the lower edge of its last line.
    pub proof fn lemma_unbounded_height_bound(self, text_lines: Seq<Seq<char>>, n: int)
        requires
            self.bound is None,
            0 <= self.char_size.height,
            0 <= self.line_height,
            0 <= n <= text_lines.len(),
        ensures
            0 <= self.text_spec(text_lines, n).0.size.height,
            self.text_spec(text_lines, n).0.size.height <= plus_spec(self.line_top_spec(n) as int, self.char_size.height as int),
            n >= 1 ==> self.text_spec(text_lines, n).0.size.height
                <= plus_spec(self.line_top_spec(n - 1) as int, self.char_size.height as int),
        decreases n,
    {
        self.lemma_line_tops(n);
        if n > 0 {
            self.lemma_line_tops(n - 1);
            self.lemma_unbounded_height_bound(text_lines, n - 1);
            self.lemma_unbounded_top(text_lines, n - 1);
            let clusters = grapheme_clusters(text_lines[n - 1]);
            self.lemma_unbounded_line_glyphs(clusters, self.text_spec(text_lines, n - 1).0, clusters.len() as int);
        }
    }

    /// Without a bound, and with sizes that are not negative, a text whose
    /// last line has a glyph is as high as the lower edge of that line: the
    /// line heights of the lines before it and the height of a character.
    pub proof fn lemma_unbounded_height(self, text_lines: Seq<Seq<char>>, n: int)
        requires
            self.bound is None,
            0 <= self.char_size.height,
            0 <= self.line_height,
            1 <= n <= text_lines.len(),
            self.text_spec(text_lines, n - 1).1.len() < self.text_spec(text_lines, n).1.len(),
        ensures
            self.text_spec(text_lines, n).0.size.height
                == plus_spec(self.line_top_spec(n - 1) as int, self.char_size.height as int),
    {
        self.lemma_unbounded_height_bound(text_lines, n - 1);
        self.lemma_unbounded_top(text_lines, n - 1);
        self.lemma_line_tops(n - 1);
        if n >= 2 {
            self.lemma_line_tops(n - 2);
        }
        let start = self.text_spec(text_lines, n - 1).0;
        let clusters = grapheme_clusters(text_lines[n - 1]);
        self.lemma_unbounded_line_glyphs(clusters, start, clusters.len() as int);
    }

    /// The text law for a text that shrinks to its content: without a bound
    /// nothing is wrapped, and the text is exactly as wide as its longest
    /// line.
    pub proof fn lemma_unbounded(self, text: Seq<char>)
        requires
            self.bound is None,
            self.char_size.width >= 0,
        ensures
            self.layout_spec(text).1.width == self.longest_spec(lines_spec(text), lines_spec(text).len() as int),
    {
        self.lemma_unbounded_text(lines_spec(text), lines_spec(text).len() as int);
    }
}

} // verus!
