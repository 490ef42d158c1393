//! The ranges of characters that a font is baked for.

use vstd::prelude::*;
use vstd::string::StrSliceExecFns;

verus! {

/// The characters that every font is baked for: from the space to the end
/// of the Latin-1 supplement.
pub const BASIC_GLYPHS: (u32, u32) = (32, 255);

/// The range that ends a list of ranges.
pub const END_OF_RANGES: (u32, u32) = (0, 0);

/// The ranges for the basic characters and for each character of `text`
/// by itself, in the order of the text, ended by the empty range.
pub open spec fn glyph_ranges_of(text: Seq<char>) -> Seq<(u32, u32)> {
    seq![BASIC_GLYPHS] + Seq::new(text.len(), |i: int| (text[i] as u32, text[i] as u32))
        + seq![END_OF_RANGES]
}

/// The ranges of characters to bake a font for, so that it shows the basic
/// characters and those of `text`.
pub fn glyph_ranges(text: &str) -> (r: Vec<(u32, u32)>)
    ensures
        r@ == glyph_ranges_of(text@),
{
    let mut ranges: Vec<(u32, u32)> = Vec::new();
    ranges.push(BASIC_GLYPHS);
    let n = text.unicode_len();
    let mut i: usize = 0;
    while i < n
        invariant
            i <= n,
            n == text@.len(),
            ranges@ == seq![BASIC_GLYPHS] + Seq::new(
                i as nat,
                |k: int| (text@[k] as u32, text@[k] as u32),
            ),
        decreases n - i,
    {
        let c = text.get_char(i);
        ranges.push((c as u32, c as u32));
        i += 1;
        assert(ranges@ =~= seq![BASIC_GLYPHS] + Seq::new(
            i as nat,
            |k: int| (text@[k] as u32, text@[k] as u32),
        ));
    }
    ranges.push(END_OF_RANGES);
    assert(ranges@ =~= glyph_ranges_of(text@));
    ranges
}

/// The ranges of characters for a font that shows, besides the basic
/// characters, the six of a short Chinese sample text.
pub fn simplify_glyph_ranges() -> (r: Vec<(u32, u32)>)
    ensures
        r@ == glyph_ranges_of("\u{8fd9}\u{662f}\u{4e2d}\u{6587}\u{5b57}\u{7b26}"@),
{
    glyph_ranges("\u{8fd9}\u{662f}\u{4e2d}\u{6587}\u{5b57}\u{7b26}")
}

} // verus!
