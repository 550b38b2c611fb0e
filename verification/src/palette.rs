//! The glyph palette: sixteen three-character glyphs ordered from the
//! sparsest to the densest, and the rule that picks one for a pixel.

use vstd::prelude::*;

verus! {

/// Number of glyphs in the palette.
pub const PALETTE_LEN: u8 = 16;

/// Width of one luminance band: 256 luminance values over 16 glyphs.
pub const BAND_WIDTH: u8 = 16;

/// Index of the solid block, the densest glyph.
pub const SOLID_GLYPH: u8 = 15;

/// One pixel: three 8-bit channels.
#[derive(Clone, Copy, Debug, PartialEq, Eq, Structural)]
pub struct Rgb {
    pub r: u8,
    pub g: u8,
    pub b: u8,
}

/// The character that each glyph repeats, sparsest first.
pub open spec fn palette_chars() -> Seq<char> {
    seq![
        ' ', '.', '\u{b4}', ':', '~', '+', 'i', 'x', '!', 'I', '#', '$', 'X', '\u{2584}',
        '\u{25a0}', '\u{2588}',
    ]
}

/// The text of the glyph at `index`: its character three times.
pub open spec fn glyph_chars(index: int) -> Seq<char> {
    let c = palette_chars()[index];
    seq![c, c, c]
}

/// Luminance of a pixel: the unweighted mean of its channels.
pub open spec fn luminance_of(pixel: Rgb) -> int {
    (pixel.r + pixel.g + pixel.b) / 3
}

/// The palette index for a luminance: one glyph per band of sixteen values.
pub open spec fn glyph_index_of(luminance: int) -> int {
    luminance / 16
}

/// The palette index used for a pixel: the solid block in block-character
/// mode, the pixel's luminance band otherwise.
pub open spec fn glyph_choice(pixel: Rgb, block_character: bool) -> int {
    if block_character {
        SOLID_GLYPH as int
    } else {
        glyph_index_of(luminance_of(pixel))
    }
}

/// Computes the luminance of a pixel.
pub fn luminance(pixel: Rgb) -> (lum: u8)
    ensures
        lum == luminance_of(pixel),
{
    let sum: u32 = pixel.r as u32 + pixel.g as u32 + pixel.b as u32;
    (sum / 3) as u8
}

/// Computes the palette index for a luminance.
pub fn glyph_index(luminance: u8) -> (index: u8)
    ensures
        index == glyph_index_of(luminance as int),
        index == luminance as int / 16,
        index < PALETTE_LEN,
{
    luminance / BAND_WIDTH
}

/// Returns the text of the glyph at `index`.
pub fn glyph_text(index: u8) -> (text: &'static str)
    requires
        index < PALETTE_LEN,
    ensures
        text@ == glyph_chars(index as int),
{
    proof {
        reveal_strlit("   ");
        reveal_strlit("...");
        reveal_strlit("\u{b4}\u{b4}\u{b4}");
        reveal_strlit(":::");
        reveal_strlit("~~~");
        reveal_strlit("+++");
        reveal_strlit("iii");
        reveal_strlit("xxx");
        reveal_strlit("!!!");
        reveal_strlit("III");
        reveal_strlit("###");
        reveal_strlit("$$$");
        reveal_strlit("XXX");
        reveal_strlit("\u{2584}\u{2584}\u{2584}");
        reveal_strlit("\u{25a0}\u{25a0}\u{25a0}");
        reveal_strlit("\u{2588}\u{2588}\u{2588}");
    }
    let text = match index {
        0 => "   ",
        1 => "...",
        2 => "\u{b4}\u{b4}\u{b4}",
        3 => ":::",
        4 => "~~~",
        5 => "+++",
        6 => "iii",
        7 => "xxx",
        8 => "!!!",
        9 => "III",
        10 => "###",
        11 => "$$$",
        12 => "XXX",
        13 => "\u{2584}\u{2584}\u{2584}",
        14 => "\u{25a0}\u{25a0}\u{25a0}",
        _ => "\u{2588}\u{2588}\u{2588}",
    };
    assert(text@ =~= glyph_chars(index as int));
    text
}

/// Picks the glyph for a pixel and the colour to print it in.
///
/// The glyph is the solid block in block-character mode and the glyph of
/// the pixel's luminance band otherwise. The colour is the pixel's own in
/// either mode.
pub fn glyph_for(pixel: Rgb, block_character: bool) -> (choice: (u8, Rgb))
    ensures
        choice.0 == glyph_choice(pixel, block_character),
        choice.0 < PALETTE_LEN,
        choice.1 == pixel,
{
    if block_character {
        (SOLID_GLYPH, pixel)
    } else {
        (glyph_index(luminance(pixel)), pixel)
    }
}

/// Every luminance falls in exactly one band: its index is the luminance
/// divided by sixteen, rounded down, and lies in the palette.
pub proof fn lemma_glyph_index_in_palette(luminance: int)
    requires
        0 <= luminance <= 255,
    ensures
        glyph_index_of(luminance) == luminance / 16,
        16 * glyph_index_of(luminance) <= luminance < 16 * glyph_index_of(luminance) + 16,
        0 <= glyph_index_of(luminance) < 16,
{
}

/// A brighter luminance never gets a sparser glyph: the palette index does
/// not decrease when the luminance grows.
pub proof fn lemma_glyph_index_monotonic(darker: int, brighter: int)
    requires
        0 <= darker <= brighter <= 255,
    ensures
        glyph_index_of(darker) <= glyph_index_of(brighter),
{
}

/// In block-character mode every pixel gets the solid block, whatever its
/// luminance.
pub proof fn lemma_block_mode_is_solid(pixel: Rgb)
    ensures
        glyph_choice(pixel, true) == SOLID_GLYPH,
        glyph_chars(glyph_choice(pixel, true)) == seq!['\u{2588}', '\u{2588}', '\u{2588}'],
{
    assert(glyph_chars(15) =~= seq!['\u{2588}', '\u{2588}', '\u{2588}']);
}

} // verus!
