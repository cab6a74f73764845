//! The built-in hexadecimal font: sixteen glyphs of five rows each, one
//! glyph per digit `0`-`F`, eight pixels per row with the glyph in the high
//! nibble.

use vstd::prelude::*;

verus! {

/// Rows per glyph.
pub const GLYPH_ROWS: u16 = 5;

/// Number of bytes in the font table.
pub const FONT_SIZE: usize = 80;

/// Address of the first font byte in memory.
pub const FONT_START: u16 = 0x50;

/// The font table, glyph after glyph.
pub const FONT_SET: [u8; 80] = [
    0xF0, 0x90, 0x90, 0x90, 0xF0,  // 0
    0x20, 0x60, 0x20, 0x20, 0x70,  // 1
    0xF0, 0x10, 0xF0, 0x80, 0xF0,  // 2
    0xF0, 0x10, 0xF0, 0x10, 0xF0,  // 3
    0x90, 0x90, 0xF0, 0x10, 0x10,  // 4
    0xF0, 0x80, 0xF0, 0x10, 0xF0,  // 5
    0xF0, 0x80, 0xF0, 0x90, 0xF0,  // 6
    0xF0, 0x10, 0x20, 0x40, 0x40,  // 7
    0xF0, 0x90, 0xF0, 0x90, 0xF0,  // 8
    0xF0, 0x90, 0xF0, 0x10, 0xF0,  // 9
    0xF0, 0x90, 0xF0, 0x90, 0x90,  // A
    0xE0, 0x90, 0xE0, 0x90, 0xE0,  // B
    0xF0, 0x80, 0x80, 0x80, 0xF0,  // C
    0xE0, 0x90, 0x90, 0x90, 0xE0,  // D
    0xF0, 0x80, 0xF0, 0x80, 0xF0,  // E
    0xF0, 0x80, 0xF0, 0x80, 0x80,  // F
];

/// Address of the first row of the glyph for `digit`.
pub open spec fn glyph_address(digit: int) -> int {
    FONT_START + digit * GLYPH_ROWS
}

} // verus!
