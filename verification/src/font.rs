//! The built-in hexadecimal font: sixteen glyphs of five sprite rows each.
use vstd::prelude::*;

verus! {

/// The address of the first glyph in memory.
pub const FONT_BASE: usize = 0x50;

/// The number of sprite rows in one glyph.
pub const GLYPH_HEIGHT: usize = 5;

/// The number of bytes that the font takes in memory.
pub const FONT_SIZE: usize = 80;

/// The glyphs for the digits 0 to F, in that order, five rows each. Only the
/// high nibble of a row is used: a glyph is four pixels wide.
pub const FONT: [u8; 80] = [
    0xF0, 0x90, 0x90, 0x90, 0xF0,
    0x20, 0x60, 0x20, 0x20, 0x70,
    0xF0, 0x10, 0xF0, 0x80, 0xF0,
    0xF0, 0x10, 0xF0, 0x10, 0xF0,
    0x90, 0x90, 0xF0, 0x10, 0x10,
    0xF0, 0x80, 0xF0, 0x10, 0xF0,
    0xF0, 0x80, 0xF0, 0x90, 0xF0,
    0xF0, 0x10, 0x20, 0x40, 0x40,
    0xF0, 0x90, 0xF0, 0x90, 0xF0,
    0xF0, 0x90, 0xF0, 0x10, 0xF0,
    0xF0, 0x90, 0xF0, 0x90, 0x90,
    0xE0, 0x90, 0xE0, 0x90, 0xE0,
    0xF0, 0x80, 0x80, 0x80, 0xF0,
    0xE0, 0x90, 0x90, 0x90, 0xE0,
    0xF0, 0x80, 0xF0, 0x80, 0xF0,
    0xF0, 0x80, 0xF0, 0x80, 0x80,
];

/// The address of the glyph for the hexadecimal digit `digit`.
pub open spec fn glyph_address(digit: int) -> int {
    FONT_BASE + GLYPH_HEIGHT * digit
}

/// The byte that the font puts at `address`, for an address inside the font.
pub open spec fn font_byte(address: int) -> u8 {
    FONT@[address - FONT_BASE]
}

/// Whether `address` lies inside the font.
pub open spec fn in_font(address: int) -> bool {
    FONT_BASE <= address < FONT_BASE + FONT_SIZE
}

/// The glyphs do not overlap and all lie inside the font.
pub proof fn lemma_glyphs_lie_in_font(digit: int)
    requires
        0 <= digit < 16,
    ensures
        in_font(glyph_address(digit)),
        in_font(glyph_address(digit) + GLYPH_HEIGHT - 1),
        digit < 15 ==> glyph_address(digit) + GLYPH_HEIGHT == glyph_address(digit + 1),
{
}

} // verus!
