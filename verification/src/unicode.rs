//! Text in pieces: lines, grapheme clusters, and how wide and where in its
//! cell each character is drawn.

use vstd::prelude::*;
use unicode_segmentation::UnicodeSegmentation;
use unicode_width::UnicodeWidthChar;
use crate::number::Percentage;

verus! {

/// Whether the character with code point `u` is a combining mark that
/// Unifont draws in the middle of its cell.
pub open spec fn is_centered_spec(u: u32) -> bool {
    (0x0488 <= u && u <= 0x0489) || (0x0900 <= u && u <= 0x0903) ||
        (0x093A <= u && u <= 0x093C) || (0x093E <= u && u <= 0x094F) ||
        (0x0951 <= u && u <= 0x0957) || (0x0962 <= u && u <= 0x0963) ||
        (0x0981 <= u && u <= 0x0983) || u == 0x09BC || (0x09BE <= u && u <= 0x09C4) ||
        (0x09C7 <= u && u <= 0x09C8) || (0x09CB <= u && u <= 0x09CD) || u == 0x09D7 ||
        (0x09E2 <= u && u <= 0x09E3) || u == 0x09FE || (0x0A01 <= u && u <= 0x0A03) ||
        u == 0x0A3C || (0x0A3E <= u && u <= 0x0A42) || (0x0A47 <= u && u <= 0x0A48) ||
        (0x0A4B <= u && u <= 0x0A4D) || u == 0x0A51 || (0x0A70 <= u && u <= 0x0A71) ||
        u == 0x0A75 || (0x0A81 <= u && u <= 0x0A83) || u == 0x0ABC ||
        (0x0ABE <= u && u <= 0x0AC5) || (0x0AC7 <= u && u <= 0x0AC9) ||
        (0x0ACB <= u && u <= 0x0ACD) || (0x0AE2 <= u && u <= 0x0AE3) ||
        (0x0AFA <= u && u <= 0x0AFF) || (0x0B01 <= u && u <= 0x0B03) || u == 0x0B3C ||
        (0x0B3E <= u && u <= 0x0B44) || (0x0B47 <= u && u <= 0x0B48) ||
        (0x0B4B <= u && u <= 0x0B4D) || (0x0B55 <= u && u <= 0x0B57) ||
        (0x0B62 <= u && u <= 0x0B63) || u == 0x0B82 || (0x0BBE <= u && u <= 0x0BC2) ||
        (0x0BC6 <= u && u <= 0x0BC8) || (0x0BCA <= u && u <= 0x0BCD) || u == 0x0BD7 ||
        (0x0C00 <= u && u <= 0x0C04) || u == 0x0C3C || (0x0C3E <= u && u <= 0x0C44) ||
        (0x0C46 <= u && u <= 0x0C48) || (0x0C4A <= u && u <= 0x0C4D) ||
        (0x0C55 <= u && u <= 0x0C56) || (0x0C62 <= u && u <= 0x0C63) ||
        (0x0C81 <= u && u <= 0x0C83) || u == 0x0CBC || (0x0CBE <= u && u <= 0x0CC4) ||
        (0x0CC6 <= u && u <= 0x0CC8) || (0x0CCA <= u && u <= 0x0CCD) ||
        (0x0CD5 <= u && u <= 0x0CD6) || (0x0CE2 <= u && u <= 0x0CE3) ||
        (0x0D00 <= u && u <= 0x0D03) || (0x0D3B <= u && u <= 0x0D3C) ||
        (0x0D3E <= u && u <= 0x0D44) || (0x0D46 <= u && u <= 0x0D48) ||
        (0x0D4A <= u && u <= 0x0D4D) || u == 0x0D57 || (0x0D62 <= u && u <= 0x0D63) ||
        (0x0D81 <= u && u <= 0x0D83) || u == 0x0DCA || (0x0DCF <= u && u <= 0x0DD4) ||
        u == 0x0DD6 || (0x0DD8 <= u && u <= 0x0DDF) || (0x0DF2 <= u && u <= 0x0DF3) ||
        (0x0F18 <= u && u <= 0x0F19) || u == 0x0F35 || u == 0x0F37 || u == 0x0F39 ||
        (0x0F3E <= u && u <= 0x0F3F) || (0x0F71 <= u && u <= 0x0F84) ||
        (0x0F86 <= u && u <= 0x0F87) || (0x0F8D <= u && u <= 0x0F97) ||
        (0x0F99 <= u && u <= 0x0FBC) || u == 0x0FC6 || (0x102B <= u && u <= 0x103E) ||
        (0x1056 <= u && u <= 0x1059) || (0x105E <= u && u <= 0x1060) ||
        (0x1062 <= u && u <= 0x1064) || (0x1067 <= u && u <= 0x106D) ||
        (0x1071 <= u && u <= 0x1074) || (0x1082 <= u && u <= 0x1083) ||
        (0x1085 <= u && u <= 0x108D) || u == 0x108F || (0x109A <= u && u <= 0x109D) ||
        (0x135D <= u && u <= 0x135F) || (0x1712 <= u && u <= 0x1715) ||
        (0x1732 <= u && u <= 0x1734) || (0x1752 <= u && u <= 0x1753) ||
        (0x1772 <= u && u <= 0x1773) || (0x17B6 <= u && u <= 0x17BA) ||
        (0x17BC <= u && u <= 0x17C0) || (0x17C4 <= u && u <= 0x17CA) ||
        (0x17CC <= u && u <= 0x17D3) || u == 0x17DD || u == 0x18A9 ||
        (0x1920 <= u && u <= 0x192B) || (0x1930 <= u && u <= 0x193B) ||
        (0x1A17 <= u && u <= 0x1A1B) || (0x1A55 <= u && u <= 0x1A5E) ||
        (0x1A60 <= u && u <= 0x1A7C) || u == 0x1A7F || (0x1B00 <= u && u <= 0x1B04) ||
        (0x1B34 <= u && u <= 0x1B44) || (0x1B6B <= u && u <= 0x1B73) ||
        (0x1B80 <= u && u <= 0x1B82) || (0x1BA1 <= u && u <= 0x1BAD) ||
        (0x1BE6 <= u && u <= 0x1BF3) || (0x1C24 <= u && u <= 0x1C37) ||
        (0x1CD0 <= u && u <= 0x1CD2) || (0x1CD4 <= u && u <= 0x1CE8) || u == 0x1CED ||
        u == 0x1CF4 || (0x1CF7 <= u && u <= 0x1CF9) || (0x20DD <= u && u <= 0x20E0) ||
        (0x20E2 <= u && u <= 0x20E4) || u == 0x20E7 || u == 0x20EA ||
        (0x302A <= u && u <= 0x302F) || (0x3099 <= u && u <= 0x309A) || u == 0xA670 ||
        u == 0xA672 || u == 0xA802 || u == 0xA806 || u == 0xA80B ||
        (0xA823 <= u && u <= 0xA827) || u == 0xA82C || (0xA880 <= u && u <= 0xA881) ||
        (0xA8B4 <= u && u <= 0xA8C5) || (0xA8E0 <= u && u <= 0xA8F1) || u == 0xA8FF ||
        (0xA926 <= u && u <= 0xA92D) || (0xA947 <= u && u <= 0xA953) ||
        (0xA980 <= u && u <= 0xA983) || (0xA9B3 <= u && u <= 0xA9C0) ||
        (0xAA29 <= u && u <= 0xAA36) || u == 0xAA43 || (0xAA4C <= u && u <= 0xAA4D) ||
        (0xAA7B <= u && u <= 0xAA7D) || u == 0xAAB0 || (0xAAB2 <= u && u <= 0xAAB4) ||
        (0xAAB7 <= u && u <= 0xAAB8) || (0xAABE <= u && u <= 0xAABF) || u == 0xAAC1 ||
        (0xAAEB <= u && u <= 0xAAEF) || (0xAAF5 <= u && u <= 0xAAF6) ||
        (0xABE3 <= u && u <= 0xABEA) || u == 0xABEC
}

/// Tells whether Unifont draws the character in the middle of its cell.
pub fn is_centered(c: char) -> (r: bool)
    ensures
        r == is_centered_spec(c as u32),
{
    let u = c as u32;
    (0x0488 <= u && u <= 0x0489) || (0x0900 <= u && u <= 0x0903) ||
    (0x093A <= u && u <= 0x093C) || (0x093E <= u && u <= 0x094F) ||
    (0x0951 <= u && u <= 0x0957) || (0x0962 <= u && u <= 0x0963) ||
    (0x0981 <= u && u <= 0x0983) || u == 0x09BC || (0x09BE <= u && u <= 0x09C4) ||
    (0x09C7 <= u && u <= 0x09C8) || (0x09CB <= u && u <= 0x09CD) || u == 0x09D7 ||
    (0x09E2 <= u && u <= 0x09E3) || u == 0x09FE || (0x0A01 <= u && u <= 0x0A03) ||
    u == 0x0A3C || (0x0A3E <= u && u <= 0x0A42) || (0x0A47 <= u && u <= 0x0A48) ||
    (0x0A4B <= u && u <= 0x0A4D) || u == 0x0A51 || (0x0A70 <= u && u <= 0x0A71) ||
    u == 0x0A75 || (0x0A81 <= u && u <= 0x0A83) || u == 0x0ABC ||
    (0x0ABE <= u && u <= 0x0AC5) || (0x0AC7 <= u && u <= 0x0AC9) ||
    (0x0ACB <= u && u <= 0x0ACD) || (0x0AE2 <= u && u <= 0x0AE3) ||
    (0x0AFA <= u && u <= 0x0AFF) || (0x0B01 <= u && u <= 0x0B03) || u == 0x0B3C ||
    (0x0B3E <= u && u <= 0x0B44) || (0x0B47 <= u && u <= 0x0B48) ||
    (0x0B4B <= u && u <= 0x0B4D) || (0x0B55 <= u && u <= 0x0B57) ||
    (0x0B62 <= u && u <= 0x0B63) || u == 0x0B82 || (0x0BBE <= u && u <= 0x0BC2) ||
    (0x0BC6 <= u && u <= 0x0BC8) || (0x0BCA <= u && u <= 0x0BCD) || u == 0x0BD7 ||
    (0x0C00 <= u && u <= 0x0C04) || u == 0x0C3C || (0x0C3E <= u && u <= 0x0C44) ||
    (0x0C46 <= u && u <= 0x0C48) || (0x0C4A <= u && u <= 0x0C4D) ||
    (0x0C55 <= u && u <= 0x0C56) || (0x0C62 <= u && u <= 0x0C63) ||
    (0x0C81 <= u && u <= 0x0C83) || u == 0x0CBC || (0x0CBE <= u && u <= 0x0CC4) ||
    (0x0CC6 <= u && u <= 0x0CC8) || (0x0CCA <= u && u <= 0x0CCD) ||
    (0x0CD5 <= u && u <= 0x0CD6) || (0x0CE2 <= u && u <= 0x0CE3) ||
    (0x0D00 <= u && u <= 0x0D03) || (0x0D3B <= u && u <= 0x0D3C) ||
    (0x0D3E <= u && u <= 0x0D44) || (0x0D46 <= u && u <= 0x0D48) ||
    (0x0D4A <= u && u <= 0x0D4D) || u == 0x0D57 || (0x0D62 <= u && u <= 0x0D63) ||
    (0x0D81 <= u && u <= 0x0D83) || u == 0x0DCA || (0x0DCF <= u && u <= 0x0DD4) ||
    u == 0x0DD6 || (0x0DD8 <= u && u <= 0x0DDF) || (0x0DF2 <= u && u <= 0x0DF3) ||
    (0x0F18 <= u && u <= 0x0F19) || u == 0x0F35 || u == 0x0F37 || u == 0x0F39 ||
    (0x0F3E <= u && u <= 0x0F3F) || (0x0F71 <= u && u <= 0x0F84) ||
    (0x0F86 <= u && u <= 0x0F87) || (0x0F8D <= u && u <= 0x0F97) ||
    (0x0F99 <= u && u <= 0x0FBC) || u == 0x0FC6 || (0x102B <= u && u <= 0x103E) ||
    (0x1056 <= u && u <= 0x1059) || (0x105E <= u && u <= 0x1060) ||
    (0x1062 <= u && u <= 0x1064) || (0x1067 <= u && u <= 0x106D) ||
    (0x1071 <= u && u <= 0x1074) || (0x1082 <= u && u <= 0x1083) ||
    (0x1085 <= u && u <= 0x108D) || u == 0x108F || (0x109A <= u && u <= 0x109D) ||
    (0x135D <= u && u <= 0x135F) || (0x1712 <= u && u <= 0x1715) ||
    (0x1732 <= u && u <= 0x1734) || (0x1752 <= u && u <= 0x1753) ||
    (0x1772 <= u && u <= 0x1773) || (0x17B6 <= u && u <= 0x17BA) ||
    (0x17BC <= u && u <= 0x17C0) || (0x17C4 <= u && u <= 0x17CA) ||
    (0x17CC <= u && u <= 0x17D3) || u == 0x17DD || u == 0x18A9 ||
    (0x1920 <= u && u <= 0x192B) || (0x1930 <= u && u <= 0x193B) ||
    (0x1A17 <= u && u <= 0x1A1B) || (0x1A55 <= u && u <= 0x1A5E) ||
    (0x1A60 <= u && u <= 0x1A7C) || u == 0x1A7F || (0x1B00 <= u && u <= 0x1B04) ||
    (0x1B34 <= u && u <= 0x1B44) || (0x1B6B <= u && u <= 0x1B73) ||
    (0x1B80 <= u && u <= 0x1B82) || (0x1BA1 <= u && u <= 0x1BAD) ||
    (0x1BE6 <= u && u <= 0x1BF3) || (0x1C24 <= u && u <= 0x1C37) ||
    (0x1CD0 <= u && u <= 0x1CD2) || (0x1CD4 <= u && u <= 0x1CE8) || u == 0x1CED ||
    u == 0x1CF4 || (0x1CF7 <= u && u <= 0x1CF9) || (0x20DD <= u && u <= 0x20E0) ||
    (0x20E2 <= u && u <= 0x20E4) || u == 0x20E7 || u == 0x20EA ||
    (0x302A <= u && u <= 0x302F) || (0x3099 <= u && u <= 0x309A) || u == 0xA670 ||
    u == 0xA672 || u == 0xA802 || u == 0xA806 || u == 0xA80B ||
    (0xA823 <= u && u <= 0xA827) || u == 0xA82C || (0xA880 <= u && u <= 0xA881) ||
    (0xA8B4 <= u && u <= 0xA8C5) || (0xA8E0 <= u && u <= 0xA8F1) || u == 0xA8FF ||
    (0xA926 <= u && u <= 0xA92D) || (0xA947 <= u && u <= 0xA953) ||
    (0xA980 <= u && u <= 0xA983) || (0xA9B3 <= u && u <= 0xA9C0) ||
    (0xAA29 <= u && u <= 0xAA36) || u == 0xAA43 || (0xAA4C <= u && u <= 0xAA4D) ||
    (0xAA7B <= u && u <= 0xAA7D) || u == 0xAAB0 || (0xAAB2 <= u && u <= 0xAAB4) ||
    (0xAAB7 <= u && u <= 0xAAB8) || (0xAABE <= u && u <= 0xAABF) || u == 0xAAC1 ||
    (0xAAEB <= u && u <= 0xAAEF) || (0xAAF5 <= u && u <= 0xAAF6) ||
    (0xABE3 <= u && u <= 0xABEA) || u == 0xABEC
}

/// How far a character is moved to the right in its cell, as a fraction of
/// the width of a narrow character: a centered mark sits half a cell to the
/// left unless its cluster is two cells wide, and any other character of a
/// wide cluster sits half a cell to the right.
pub open spec fn char_offset_spec(c: char, width: u32) -> Percentage {
    if is_centered_spec(c as u32) {
        if width == 2 {
            0
        } else {
            -500_000i64
        }
    } else if width == 2 {
        500_000
    } else {
        0
    }
}

/// Returns how far a character is moved to the right in its cell.
pub fn char_offset(c: char, width: u32) -> (r: Percentage)
    ensures
        r == char_offset_spec(c, width),
{
    if is_centered(c) {
        if width == 2 {
            0
        } else {
            -500_000
        }
    } else if width == 2 {
        500_000
    } else {
        0
    }
}

/// The number of columns that the Unicode tables give to a character, and
/// `None` for a control character.
pub uninterp spec fn unicode_width(c: char) -> Option<usize>;

/// The width of a character in columns.
///
/// Calls `UnicodeWidthChar::width` of the crate `unicode-width`. The result
/// is named, not computed here: it comes from the crate's tables. What is
/// claimed beyond the name is what the crate's lookup shows: the characters
/// from the space to the tilde are one column wide, the control characters
/// below the space and from U+007F to U+009F have no width, every other
/// character has one, and no width is above three.
#[verifier::external_body]
fn width_of(c: char) -> (r: Option<usize>)
    ensures
        r == unicode_width(c),
        0x20 <= c as u32 && (c as u32) < 0x7f ==> r == Some(1usize),
        (c as u32) < 0x20 || (0x7f <= c as u32 && (c as u32) < 0xa0) ==> r is None,
        c as u32 >= 0xa0 ==> r is Some,
        r is Some ==> r->Some_0 <= 3,
{
    UnicodeWidthChar::width(c)
}

/// The width of a character in columns, where a control character counts as
/// two.
pub open spec fn char_width_spec(c: char) -> u32 {
    match unicode_width(c) {
        Some(w) => w as u32,
        None => 2,
    }
}

/// Returns the width of a character in columns: one for the characters from
/// the space to the tilde, two for a control character, and what the Unicode
/// tables say for the rest.
pub fn char_width(c: char) -> (r: u32)
    ensures
        r == char_width_spec(c),
        r <= 3,
        0x20 <= c as u32 && (c as u32) < 0x7f ==> r == 1,
        (c as u32) < 0x20 || (0x7f <= c as u32 && (c as u32) < 0xa0) ==> r == 2,
{
    match width_of(c) {
        Some(w) => w as u32,
        None => 2,
    }
}

/// The width of a character where only ASCII is drawn narrow: one for the
/// characters from the space to the tilde, two for everything else.
pub fn ascii_char_width(c: char) -> (r: u32)
    ensures
        r == if 0x20 <= c as u32 && (c as u32) < 0x7f { 1u32 } else { 2u32 },
{
    let u = c as u32;
    if u >= 0x20 && u < 0x7f {
        1
    } else {
        2
    }
}

/// The extended grapheme clusters of a text, in order.
pub uninterp spec fn grapheme_clusters(text: Seq<char>) -> Seq<Seq<char>>;

/// The first `n` of some clusters, one after another.
pub open spec fn joined_spec(clusters: Seq<Seq<char>>, n: int) -> Seq<char>
    decreases n,
{
    if n <= 0 || n > clusters.len() {
        Seq::empty()
    } else {
        joined_spec(clusters, n - 1) + clusters[n - 1]
    }
}

/// Splits a text into its extended grapheme clusters.
///
/// Calls `UnicodeSegmentation::graphemes` of the crate
/// `unicode-segmentation`, with extended clusters. The result is named, not
/// computed here: where the clusters end is decided by the crate's tables.
/// What is claimed beyond the name is what the crate's iterator shows: it
/// cuts the text at rising boundaries from its beginning to its end, so no
/// cluster is empty and the clusters one after another are the text.
#[verifier::external_body]
pub(crate) fn graphemes(text: &Vec<char>) -> (r: Vec<Vec<char>>)
    ensures
        r@.len() == grapheme_clusters(text@).len(),
        forall|i: int| 0 <= i < r@.len() ==> (#[trigger] r@[i])@ == grapheme_clusters(text@)[i],
        forall|i: int| 0 <= i < r@.len() ==> (#[trigger] r@[i])@.len() > 0,
        joined_spec(grapheme_clusters(text@), r@.len() as int) == text@,
{
    let s: String = text.iter().collect();
    s.graphemes(true).map(|g| g.chars().collect()).collect()
}

/// A text that is being split into lines: the lines that are complete, the
/// line that is not, and whether anything came after the last line ending.
pub struct Split {
    pub lines: Seq<Seq<char>>,
    pub line: Seq<char>,
    pub open: bool,
}

/// A line without the carriage return that came before its line feed.
pub open spec fn trimmed_spec(line: Seq<char>) -> Seq<char> {
    if line.len() > 0 && line.last() == '\r' {
        line.drop_last()
    } else {
        line
    }
}

/// The first `n` characters of a text, split at each line feed.
pub open spec fn split_spec(text: Seq<char>, n: int) -> Split
    decreases n,
{
    if n <= 0 || n > text.len() {
        Split { lines: Seq::empty(), line: Seq::empty(), open: false }
    } else {
        let before = split_spec(text, n - 1);
        if text[n - 1] == '\n' {
            Split { lines: before.lines.push(trimmed_spec(before.line)), line: Seq::empty(), open: false }
        } else {
            Split { lines: before.lines, line: before.line.push(text[n - 1]), open: true }
        }
    }
}

/// The lines of a text. A line ends with a line feed, or with a carriage
/// return and a line feed, neither of which belongs to it. What follows the
/// last line ending is a line too, unless nothing does.
pub open spec fn lines_spec(text: Seq<char>) -> Seq<Seq<char>> {
    let split = split_spec(text, text.len() as int);
    if split.open {
        split.lines.push(split.line)
    } else {
        split.lines
    }
}

/// Splits a text into its lines.
pub fn lines(text: &Vec<char>) -> (r: Vec<Vec<char>>)
    ensures
        r@.len() == lines_spec(text@).len(),
        forall|i: int| 0 <= i < r@.len() ==> (#[trigger] r@[i])@ == lines_spec(text@)[i],
{
    let mut done: Vec<Vec<char>> = Vec::new();
    let mut line: Vec<char> = Vec::new();
    let mut open = false;
    let mut i: usize = 0;
    while i < text.len()
        invariant
            0 <= i <= text@.len(),
            done@.len() == split_spec(text@, i as int).lines.len(),
            forall|j: int| 0 <= j < done@.len() ==> (#[trigger] done@[j])@ == split_spec(text@, i as int).lines[j],
            line@ == split_spec(text@, i as int).line,
            open == split_spec(text@, i as int).open,
        decreases text@.len() - i,
    {
        let c = text[i];
        if c == '\n' {
            let n = line.len();
            if n > 0 && line[n - 1] == '\r' {
                line.pop();
            }
            done.push(line);
            line = Vec::new();
            open = false;
        } else {
            line.push(c);
            open = true;
        }
        i = i + 1;
    }
    if open {
        done.push(line);
    }
    done
}

} // verus!
