//! Addressing rules of the SSD1306 display and its 6x8 font.

use vstd::prelude::*;

verus! {

/// Number of glyphs in the font; the first one is for the space character.
pub const FONT_GLYPHS: usize = 160;

/// The character that the font's first glyph draws.
pub const FIRST_GLYPH_CHAR: u32 = 32;

/// Display width in pixels.
pub const DISPLAY_WIDTH: u8 = 128;

/// Number of 8-pixel pages of the display.
pub const DISPLAY_PAGES: u8 = 8;

/// The commands that put the cursor at column `x` of `page`: set the page,
/// then the lower and the higher nibble of the column start address.
pub open spec fn cursor_command_bytes(x: u8, page: u8) -> [u8; 3] {
    [0xb0u8 | page, x & 0xfu8, 0x10u8 | (x >> 4u8)]
}

/// The commands that put the cursor at column `x` of `page`.
pub fn cursor_commands(x: u8, page: u8) -> (r: [u8; 3])
    ensures
        r == cursor_command_bytes(x, page),
{
    [0xb0 | page, x & 0xf, 0x10 | (x >> 4u8)]
}

/// The font glyph that draws `c`, if the font has one.
pub open spec fn glyph_of(c: char) -> Option<usize> {
    let code = c as u32;
    if FIRST_GLYPH_CHAR <= code && code < FIRST_GLYPH_CHAR + FONT_GLYPHS as u32 {
        Some((code - FIRST_GLYPH_CHAR) as usize)
    } else {
        None
    }
}

/// The font glyph that draws `c`; characters outside the font are skipped.
pub fn glyph_index(c: char) -> (r: Option<usize>)
    ensures
        r == glyph_of(c),
        r matches Some(i) ==> i < FONT_GLYPHS,
{
    let code = c as u32;
    if FIRST_GLYPH_CHAR <= code && code < FIRST_GLYPH_CHAR + FONT_GLYPHS as u32 {
        Some((code - FIRST_GLYPH_CHAR) as usize)
    } else {
        None
    }
}

} // verus!
