use rusted_battalions::arrange::{layout, Env, LeafKind, Pass};
use rusted_battalions::bitmap_text::{
    BitmapFont, BitmapFontState, BitmapFontSupported, BitmapText, CharSize, ColorRgb, Metrics,
};
use rusted_battalions::error::LayoutError;
use rusted_battalions::handles::{Handle, Handles};
use rusted_battalions::location::{Length, ScreenSize, Size};
use rusted_battalions::measure::measure;
use rusted_battalions::node::Node;
use rusted_battalions::number::UNIT;
use rusted_battalions::tile::Tile;
use rusted_battalions::unicode::{ascii_char_width, char_offset, char_width, is_centered, lines};
use rusted_battalions::units::{RealLocation, RealPosition, RealSize, SmallestLength, SmallestSize};

fn chars(s: &str) -> Vec<char> {
    s.chars().collect()
}

fn metrics(bound: Option<i64>) -> Metrics {
    Metrics { char_size: RealSize { width: 10_000, height: 20_000 }, line_height: 25_000, bound }
}

fn font_state() -> BitmapFontState {
    BitmapFontState {
        columns: 16,
        tile_width: 8,
        tile_height: 16,
        supported: BitmapFontSupported { start: ' ', end: '~', replace: '?' },
    }
}

fn env() -> Env {
    let mut fonts = Handles::new();
    fonts.insert(&Handle::new(9), font_state());
    Env { screen: ScreenSize::new(100, 100), spritesheets: Handles::new(), fonts }
}

fn text(s: &str) -> BitmapText {
    let mut t = BitmapText::new();
    t.set_font(BitmapFont::new(Handle::new(9)));
    t.set_char_size(CharSize { width: Length::Px(1), height: Length::Px(2) });
    t.set_text(chars(s));
    t
}

#[test]
fn lines_end_at_line_feeds() {
    let split = |s: &str| -> Vec<String> { lines(&chars(s)).into_iter().map(|l| l.into_iter().collect()).collect() };
    assert_eq!(split(""), Vec::<String>::new());
    assert_eq!(split("a"), vec!["a"]);
    assert_eq!(split("a\n"), vec!["a"]);
    assert_eq!(split("a\nb"), vec!["a", "b"]);
    assert_eq!(split("a\r\nb\r\n"), vec!["a", "b"]);
    assert_eq!(split("a\n\nb"), vec!["a", "", "b"]);
    assert_eq!(split("\n"), vec![""]);
    assert_eq!(split("a\r"), vec!["a\r"]);
    assert_eq!(split("a\r\r\n"), vec!["a\r"]);
}

#[test]
fn lines_agree_with_the_standard_library() {
    for s in ["", "x", "one\ntwo\n", "\r\n\r\n", "a\rb\nc", "tail\r", "\n\n\n", "mixed\r\nends\nhere"] {
        let ours: Vec<String> = lines(&chars(s)).into_iter().map(|l| l.into_iter().collect()).collect();
        let theirs: Vec<String> = s.lines().map(|l| l.to_string()).collect();
        assert_eq!(ours, theirs, "{:?}", s);
    }
}

#[test]
fn marks_stay_in_the_cell_of_their_letter() {
    let (glyphs, size) = metrics(None).layout(&chars("a\u{310}e\u{301}o\u{308}\u{332}"));
    let places: Vec<(char, i64)> = glyphs.iter().map(|g| (g.character, g.position.x)).collect();
    assert_eq!(
        places,
        vec![
            ('a', 0),
            ('\u{310}', 0),
            ('e', 10_000),
            ('\u{301}', 10_000),
            ('o', 20_000),
            ('\u{308}', 20_000),
            ('\u{332}', 20_000),
        ]
    );
    assert_eq!(size, RealSize { width: 30_000, height: 20_000 });
    // Each letter alone takes a cell.
    let (glyphs, size) = metrics(None).layout(&chars("abc"));
    let xs: Vec<i64> = glyphs.iter().map(|g| g.position.x).collect();
    assert_eq!(xs, vec![0, 10_000, 20_000]);
    assert_eq!(size.width, 30_000);
}

#[test]
fn widths_of_characters() {
    assert_eq!(char_width('a'), 1);
    assert_eq!(char_width(' '), 1);
    assert_eq!(char_width('~'), 1);
    assert_eq!(char_width('中'), 2);
    assert_eq!(char_width('\u{301}'), 0);
    assert_eq!(char_width('\u{7}'), 2);
    assert_eq!(char_width('\u{7f}'), 2);
    assert_eq!(char_width('\u{9f}'), 2);
    assert_eq!(char_width('é'), 1);
    assert_eq!(ascii_char_width('a'), 1);
    assert_eq!(ascii_char_width('\u{7f}'), 2);
    assert_eq!(ascii_char_width('\n'), 2);
    assert_eq!(ascii_char_width('中'), 2);
}

#[test]
fn offsets_of_characters() {
    assert!(is_centered('\u{0488}'));
    assert!(is_centered('\u{0903}'));
    assert!(is_centered('\u{ABEC}'));
    assert!(is_centered('\u{09BC}'));
    assert!(!is_centered('\u{0487}'));
    assert!(!is_centered('\u{048A}'));
    assert!(!is_centered('a'));
    assert!(!is_centered('\u{ABEB}'));
    assert_eq!(char_offset('a', 1), 0);
    assert_eq!(char_offset('a', 2), 500_000);
    assert_eq!(char_offset('\u{0488}', 2), 0);
    assert_eq!(char_offset('\u{0488}', 1), -500_000);
    assert_eq!(char_offset('\u{0488}', 0), -500_000);
}

#[test]
fn empty_text_has_no_glyphs_and_no_size() {
    let (glyphs, size) = metrics(Some(UNIT)).layout(&chars(""));
    assert_eq!(glyphs.len(), 0);
    assert_eq!(size, RealSize { width: 0, height: 0 });
    let (glyphs, size) = metrics(None).layout(&chars(""));
    assert_eq!(glyphs.len(), 0);
    assert_eq!(size, RealSize { width: 0, height: 0 });
}

#[test]
fn text_without_bound_is_as_wide_as_its_longest_line() {
    let (glyphs, size) = metrics(None).layout(&chars("ab\nabcde\nabc"));
    assert_eq!(glyphs.len(), 10);
    assert_eq!(size, RealSize { width: 50_000, height: 70_000 });
    let ys: Vec<i64> = glyphs.iter().map(|g| g.position.y).collect();
    assert_eq!(ys, vec![0, 0, 25_000, 25_000, 25_000, 25_000, 25_000, 50_000, 50_000, 50_000]);
    let xs: Vec<i64> = glyphs.iter().map(|g| g.position.x).collect();
    assert_eq!(xs, vec![0, 10_000, 0, 10_000, 20_000, 30_000, 40_000, 0, 10_000, 20_000]);
    assert!(glyphs.iter().all(|g| g.size == RealSize { width: 20_000, height: 20_000 }));
}

#[test]
fn text_wraps_where_the_next_cluster_does_not_fit() {
    let (glyphs, size) = metrics(Some(25_000)).layout(&chars("abcde"));
    let places: Vec<(char, i64, i64)> = glyphs.iter().map(|g| (g.character, g.position.x, g.position.y)).collect();
    assert_eq!(
        places,
        vec![('a', 0, 0), ('b', 10_000, 0), ('c', 0, 25_000), ('d', 10_000, 25_000), ('e', 0, 50_000)]
    );
    assert_eq!(size, RealSize { width: 20_000, height: 70_000 });
}

#[test]
fn a_cluster_wider_than_the_bound_stays_alone_on_its_line() {
    let (glyphs, size) = metrics(Some(5_000)).layout(&chars("ab"));
    let places: Vec<(i64, i64)> = glyphs.iter().map(|g| (g.position.x, g.position.y)).collect();
    assert_eq!(places, vec![(0, 0), (0, 25_000)]);
    assert_eq!(size, RealSize { width: 10_000, height: 45_000 });
}

#[test]
fn wide_and_combining_characters() {
    let (glyphs, size) = metrics(None).layout(&chars("中e\u{301}"));
    let places: Vec<(char, i64)> = glyphs.iter().map(|g| (g.character, g.position.x)).collect();
    // The wide character is moved half a cell to the right, the mark shares
    // the cell of its letter.
    assert_eq!(places, vec![('中', 5_000), ('e', 20_000), ('\u{301}', 20_000)]);
    assert_eq!(size, RealSize { width: 30_000, height: 20_000 });
    // A control character takes two cells.
    let (glyphs, size) = metrics(None).layout(&chars("\u{7}a"));
    let places: Vec<(char, i64)> = glyphs.iter().map(|g| (g.character, g.position.x)).collect();
    assert_eq!(places, vec![('\u{7}', 5_000), ('a', 20_000)]);
    assert_eq!(size.width, 30_000);
}

#[test]
fn font_tiles() {
    let font = font_state();
    assert_eq!(font.tile('A', 2), Some(Tile { start_x: 16, start_y: 64, end_x: 32, end_y: 80 }));
    assert_eq!(font.tile('A', 1), Some(Tile { start_x: 16, start_y: 64, end_x: 24, end_y: 80 }));
    assert_eq!(font.tile('\u{0}', 2), Some(Tile { start_x: 0, start_y: 0, end_x: 16, end_y: 16 }));
    assert_eq!(font.supported.replace('a'), 'a');
    assert_eq!(font.supported.replace('é'), '?');
    assert_eq!(font.supported.replace('\n'), '?');
    assert_eq!(font.supported.replace(' '), ' ');
    assert_eq!(font.supported.replace('~'), '~');
    // A tile needs columns, and coordinates that fit.
    let none = BitmapFontState { columns: 0, ..font };
    assert_eq!(none.tile('A', 2), None);
    let high = BitmapFontState { columns: 1, tile_width: 8, tile_height: 0x0400_0000, ..font };
    assert_eq!(high.tile(' ', 2), Some(Tile { start_x: 0, start_y: 0x8000_0000, end_x: 16, end_y: 0x8400_0000 }));
    assert_eq!(high.tile('>', 2), Some(Tile { start_x: 0, start_y: 0xf800_0000, end_x: 16, end_y: 0xfc00_0000 }));
    assert_eq!(high.tile('?', 2), None);
    assert_eq!(high.tile('@', 2), None);
    let wide = BitmapFontState { tile_width: 0x8000_0000, ..font };
    assert_eq!(wide.tile('A', 2), None);
}

#[test]
fn text_with_a_character_beyond_the_texture_cannot_be_drawn() {
    let mut e = env();
    e.fonts.insert(
        &Handle::new(9),
        BitmapFontState {
            columns: 1,
            tile_width: 8,
            tile_height: 0x0400_0000,
            supported: BitmapFontSupported { start: ' ', end: '~', replace: '?' },
        },
    );
    let mut pass = Pass::new();
    assert_eq!(layout(&Node::BitmapText(text("!")), &RealLocation::full(), &e, &mut pass), Ok(()));
    assert_eq!(pass.glyphs.len(), 1);
    let mut pass = Pass::new();
    assert_eq!(layout(&Node::BitmapText(text("!@")), &RealLocation::full(), &e, &mut pass), Err(LayoutError::FontTooLarge));
}

#[test]
fn text_shrinks_to_its_content() {
    let mut t = text("ab\nabc");
    t.location.size = Size { width: Length::SmallestWidth(UNIT), height: Length::SmallestHeight(UNIT) };
    t.set_line_spacing(Length::Px(1));
    let parent = SmallestSize { width: SmallestLength::Screen(UNIT), height: SmallestLength::Screen(UNIT) };
    let measured = measure(&Node::BitmapText(t), &parent, &ScreenSize::new(100, 100)).unwrap();
    assert_eq!(measured.size, SmallestSize { width: SmallestLength::Screen(30_000), height: SmallestLength::Screen(50_000) });
    assert_eq!(measured.glyphs.len(), 5);
}

#[test]
fn text_is_drawn_glyph_by_glyph() {
    let mut t = text("aé");
    t.set_text_color(ColorRgb { r: UNIT, g: 0, b: UNIT / 2 });
    let mut pass = Pass::new();
    layout(&Node::BitmapText(t), &RealLocation::full(), &env(), &mut pass).unwrap();
    assert_eq!(pass.rendered.len(), 1);
    assert_eq!(pass.rendered[0].kind, LeafKind::Text);
    assert_eq!(pass.rendered[0].order, 2 * UNIT);
    assert_eq!(pass.max_order, 2 * UNIT);
    assert_eq!(pass.glyphs.len(), 2);
    let a = pass.glyphs[0];
    assert_eq!(a.font, Handle::new(9));
    assert_eq!(a.color, ColorRgb { r: UNIT, g: 0, b: UNIT / 2 });
    assert_eq!(a.instance.tile, Tile { start_x: 16, start_y: 96, end_x: 32, end_y: 112 });
    assert_eq!(a.instance.position, RealPosition { x: -UNIT, y: 960_000 });
    assert_eq!(a.instance.size, RealSize { width: 40_000, height: 40_000 });
    assert_eq!(a.instance.order, 2 * UNIT);
    // The font has no é: the replacement is drawn.
    let e = pass.glyphs[1];
    assert_eq!(e.instance.tile, Tile { start_x: 240, start_y: 48, end_x: 256, end_y: 64 });
    assert_eq!(e.instance.position.x, -980_000);
}

#[test]
fn text_whose_font_is_not_loaded_is_passed_over() {
    let mut t = text("ab");
    t.set_font(BitmapFont::new(Handle::new(1234)));
    let mut pass = Pass::new();
    layout(&Node::BitmapText(t), &RealLocation::full(), &env(), &mut pass).unwrap();
    assert_eq!(pass.rendered.len(), 0);
    assert_eq!(pass.glyphs.len(), 0);
    assert_eq!(pass.max_order, UNIT);
}

#[test]
fn text_needs_font_and_char_size() {
    let mut t = BitmapText::new();
    t.set_text(chars("a"));
    let mut pass = Pass::new();
    let r = layout(&Node::BitmapText(t), &RealLocation::full(), &env(), &mut pass);
    assert_eq!(r, Err(LayoutError::MissingFont));
    let mut t = BitmapText::new();
    t.set_font(BitmapFont::new(Handle::new(9)));
    t.set_text(chars("a"));
    let mut pass = Pass::new();
    let r = layout(&Node::BitmapText(t), &RealLocation::full(), &env(), &mut pass);
    assert_eq!(r, Err(LayoutError::MissingCharSize));
}

#[test]
fn text_cannot_take_its_width_from_its_height() {
    let parent = SmallestSize { width: SmallestLength::Screen(UNIT), height: SmallestLength::Screen(UNIT) };
    let screen = ScreenSize::new(100, 100);
    let mut t = text("ab");
    t.location.size = Size { width: Length::SmallestHeight(UNIT), height: Length::SmallestHeight(UNIT) };
    assert_eq!(measure(&Node::BitmapText(t), &parent, &screen).err(), Some(LayoutError::TextSmallestHeightUnknown));
    let mut t = text("ab");
    t.location.size = Size { width: Length::ParentWidth(UNIT), height: Length::SmallestHeight(UNIT) };
    let unknown = SmallestSize { width: SmallestLength::ParentWidth(UNIT), height: SmallestLength::Screen(UNIT) };
    assert_eq!(measure(&Node::BitmapText(t), &unknown, &screen).err(), Some(LayoutError::TextWidthUnknown));
    let mut t = text("ab");
    t.location.size = Size { width: Length::ParentHeight(UNIT), height: Length::SmallestHeight(UNIT) };
    let unknown = SmallestSize { width: SmallestLength::Screen(UNIT), height: SmallestLength::ParentHeight(UNIT) };
    assert_eq!(measure(&Node::BitmapText(t), &unknown, &screen).err(), Some(LayoutError::TextHeightUnknown));
}

#[test]
fn char_size_cannot_depend_on_the_content() {
    let parent = SmallestSize { width: SmallestLength::Screen(UNIT), height: SmallestLength::Screen(UNIT) };
    let screen = ScreenSize::new(100, 100);
    let size = CharSize { width: Length::SmallestWidth(UNIT), height: Length::Px(1) };
    assert_eq!(size.to_screen(&parent, &screen), Err(LayoutError::SmallestWidthUnknown));
    let size = CharSize { width: Length::ParentWidth(UNIT / 10), height: Length::ParentHeight(UNIT / 5) };
    assert_eq!(size.to_screen(&parent, &screen), Ok(RealSize { width: 100_000, height: 200_000 }));
}

#[test]
fn every_error_has_a_message() {
    let all = [
        LayoutError::ParentWidthUnknown,
        LayoutError::ParentHeightUnknown,
        LayoutError::SmallestWidthUnknown,
        LayoutError::SmallestHeightUnknown,
        LayoutError::UnsupportedAxis,
        LayoutError::Unresolved,
        LayoutError::TextWidthUnknown,
        LayoutError::TextHeightUnknown,
        LayoutError::TextSmallestHeightUnknown,
        LayoutError::FontTooLarge,
        LayoutError::MissingPalette,
        LayoutError::UnexpectedPalette,
        LayoutError::MissingGridSize,
        LayoutError::MissingQuadrants,
        LayoutError::MissingBorderSize,
        LayoutError::MissingCharSize,
        LayoutError::MissingFont,
        LayoutError::MissingSpritesheet,
        LayoutError::OrderTooLow,
        LayoutError::Mismatch,
    ];
    for e in all {
        assert!(!e.message().is_empty());
    }
    assert_eq!(LayoutError::MissingFont.message(), "BitmapText is missing font");
    assert_eq!(LayoutError::OrderTooLow.message(), "Order cannot be lower than 1.0");
}

#[test]
fn text_that_was_measured_keeps_its_glyphs() {
    let mut t = text("ab\nc");
    t.location.size = Size { width: Length::SmallestWidth(UNIT), height: Length::SmallestHeight(UNIT) };
    let mut pass = Pass::new();
    layout(&Node::BitmapText(t), &RealLocation::full(), &env(), &mut pass).unwrap();
    assert_eq!(pass.glyphs.len(), 3);
    assert_eq!(pass.rendered[0].smallest, RealSize { width: 20_000, height: 40_000 });
    let xs: Vec<i64> = pass.glyphs.iter().map(|g| g.instance.position.x).collect();
    assert_eq!(xs, vec![-UNIT, -980_000, -UNIT]);
    let ys: Vec<i64> = pass.glyphs.iter().map(|g| g.instance.position.y).collect();
    assert_eq!(ys, vec![960_000, 960_000, 920_000]);
}

#[test]
fn text_in_a_narrow_place_wraps() {
    let mut t = text("abcd");
    t.location.size = Size { width: Length::Px(2), height: Length::ParentHeight(UNIT) };
    let mut pass = Pass::new();
    layout(&Node::BitmapText(t), &RealLocation::full(), &env(), &mut pass).unwrap();
    let places: Vec<(i64, i64)> = pass.glyphs.iter().map(|g| (g.instance.position.x, g.instance.position.y)).collect();
    assert_eq!(places, vec![(-UNIT, 960_000), (-980_000, 960_000), (-UNIT, 920_000), (-980_000, 920_000)]);
}

#[test]
fn text_is_laid_out_in_a_known_or_shrinking_width() {
    let screen = ScreenSize::new(100, 100);
    let known = SmallestSize { width: SmallestLength::Screen(25_000), height: SmallestLength::Screen(UNIT) };
    let t = text("abcde");
    assert_eq!(t.check(&known, &screen), Ok(()));
    let (glyphs, size) = t.children_size(&known, &screen);
    assert_eq!(glyphs.len(), 5);
    assert_eq!(size, RealSize { width: 20_000, height: 60_000 });
    let shrinking = SmallestSize { width: SmallestLength::SmallestWidth(UNIT), height: SmallestLength::Screen(UNIT) };
    assert_eq!(t.check(&shrinking, &screen), Ok(()));
    let (glyphs, size) = t.children_size(&shrinking, &screen);
    assert_eq!(glyphs.len(), 5);
    assert_eq!(size, RealSize { width: 50_000, height: 20_000 });
    let unknown = |width| t.check(&SmallestSize { width, height: SmallestLength::Screen(UNIT) }, &screen);
    assert_eq!(unknown(SmallestLength::SmallestHeight(UNIT)), Err(LayoutError::TextSmallestHeightUnknown));
    assert_eq!(unknown(SmallestLength::ParentWidth(UNIT)), Err(LayoutError::TextWidthUnknown));
    assert_eq!(unknown(SmallestLength::ParentHeight(UNIT)), Err(LayoutError::TextHeightUnknown));
    let mut bare = BitmapText::new();
    bare.set_text(chars("a"));
    assert_eq!(bare.check(&known, &screen), Err(LayoutError::MissingCharSize));
    assert_eq!(BitmapText::new().location, rusted_battalions::location::Location::default());
}

#[test]
fn there_is_a_glyph_for_each_character_of_each_line() {
    for s in ["", "abc", "ab\ncd\n", "a\r\nb", "e\u{301}\u{310}x", "中文\n\nz", "\u{7}\u{301}"] {
        let expected: usize = s.lines().map(|l| l.chars().count()).sum();
        assert_eq!(metrics(None).layout(&chars(s)).0.len(), expected, "{:?}", s);
        assert_eq!(metrics(Some(15_000)).layout(&chars(s)).0.len(), expected, "{:?}", s);
    }
}

#[test]
fn lines_of_a_text_without_bound_lie_below_each_other() {
    let (glyphs, size) = metrics(None).layout(&chars("ab\n\ncde\nf"));
    let ys: Vec<i64> = glyphs.iter().map(|g| g.position.y).collect();
    assert_eq!(ys, vec![0, 0, 50_000, 50_000, 50_000, 75_000]);
    assert_eq!(size, RealSize { width: 30_000, height: 95_000 });
}
