//! The built-in font: sixteen glyphs of five bytes each.

use vstd::prelude::*;

verus! {

/// The address at which the font table is loaded.
pub const FONT_START_ADDRESS: usize = 0x50;

/// The number of bytes in the font table.
pub const FONT_SIZE: usize = 80;

/// The font sprite data for the hexadecimal digits 0 to F, five bytes each.
pub const FONT: [u8; FONT_SIZE] = [
    0xF0, 0x90, 0x90, 0x90, 0xF0,
    0x20, 0x60, 0x20, 0x20, 0x70,
    0xF0, 0x10, 0xF0, 0x80, 0xF0,
    0xF0, 0x10, 0xF0, 0x10, 0xF0,
    0x90, 0x90, 0xF0, 0x10, 0x10,
    0xF0, 0x80, 0xF0, 0x10, 0xF0,
    0xF0, 0x80, 0xF0, 0x90, 0xF0,
    0xF0, 0x10, 0x20, 0x40, 0x40,
    0xF0, 0x90, 0xF0, 0x90, 0xF0,
    0xF0, 0x90, 0xF0, 0x10, 0xF0,
    0xF0, 0x90, 0xF0, 0x90, 0x90,
    0xE0, 0x90, 0xE0, 0x90, 0xE0,
    0xF0, 0x80, 0x80, 0x80, 0xF0,
    0xE0, 0x90, 0x90, 0x90, 0xE0,
    0xF0, 0x80, 0xF0, 0x80, 0xF0,
    0xF0, 0x80, 0xF0, 0x80, 0x80,
];

/// The five rows of the glyph for `digit`, top row first.
pub open spec fn glyph(digit: int) -> Seq<u8>
    recommends
        0 <= digit < 16,
{
    FONT@.subrange(5 * digit, 5 * digit + 5)
}

/// The address at which the glyph for `digit` starts.
pub open spec fn glyph_address(digit: int) -> int
    recommends
        0 <= digit < 16,
{
    FONT_START_ADDRESS + 5 * digit
}

} // verus!
