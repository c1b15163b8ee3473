//! The built-in hexadecimal font: sixteen glyphs of five rows each.

use vstd::prelude::*;

verus! {

/// Number of glyphs in the font, one per hexadecimal digit.
pub const GLYPH_COUNT: usize = 16;

/// Number of rows, and so of bytes, in one glyph.
pub const GLYPH_ROWS: usize = 5;

/// Number of bytes in the whole font table.
pub const FONT_BYTES: usize = 80;

/// The five row bytes of the glyph for the hexadecimal digit `digit`.
///
/// Each byte is one row of a 4x5 pixel character, most significant bit
/// leftmost; the low nibble is padding and stays clear.
pub open spec fn glyph(digit: int) -> Seq<u8> {
    if digit == 0x0 {
        seq![0xf0u8, 0x90u8, 0x90u8, 0x90u8, 0xf0u8]
    } else if digit == 0x1 {
        seq![0x20u8, 0x60u8, 0x20u8, 0x20u8, 0x70u8]
    } else if digit == 0x2 {
        seq![0xf0u8, 0x10u8, 0xf0u8, 0x80u8, 0xf0u8]
    } else if digit == 0x3 {
        seq![0xf0u8, 0x10u8, 0xf0u8, 0x10u8, 0xf0u8]
    } else if digit == 0x4 {
        seq![0x90u8, 0x90u8, 0xf0u8, 0x10u8, 0x10u8]
    } else if digit == 0x5 {
        seq![0xf0u8, 0x80u8, 0xf0u8, 0x10u8, 0xf0u8]
    } else if digit == 0x6 {
        seq![0xf0u8, 0x80u8, 0xf0u8, 0x90u8, 0xf0u8]
    } else if digit == 0x7 {
        seq![0xf0u8, 0x10u8, 0x20u8, 0x40u8, 0x40u8]
    } else if digit == 0x8 {
        seq![0xf0u8, 0x90u8, 0xf0u8, 0x90u8, 0xf0u8]
    } else if digit == 0x9 {
        seq![0xf0u8, 0x90u8, 0xf0u8, 0x10u8, 0xf0u8]
    } else if digit == 0xa {
        seq![0xf0u8, 0x90u8, 0xf0u8, 0x90u8, 0x90u8]
    } else if digit == 0xb {
        seq![0xe0u8, 0x90u8, 0xe0u8, 0x90u8, 0xe0u8]
    } else if digit == 0xc {
        seq![0xf0u8, 0x80u8, 0x80u8, 0x80u8, 0xf0u8]
    } else if digit == 0xd {
        seq![0xe0u8, 0x90u8, 0x90u8, 0x90u8, 0xe0u8]
    } else if digit == 0xe {
        seq![0xf0u8, 0x80u8, 0xf0u8, 0x80u8, 0xf0u8]
    } else {
        seq![0xf0u8, 0x80u8, 0xf0u8, 0x80u8, 0x80u8]
    }
}

/// The byte at offset `offset` of the font table laid out glyph after glyph,
/// as it is installed in memory.
pub open spec fn font_byte(offset: int) -> u8 {
    glyph(offset / 5)[offset % 5]
}

/// The font table: one row of five bytes per hexadecimal digit.
pub struct Font(pub [[u8; 5]; 16]);

impl Font {
    /// The rows of glyph `digit` as a sequence.
    pub open spec fn rows(&self, digit: int) -> Seq<u8> {
        self.0@[digit]@
    }

    /// Builds the standard font.
    pub fn new() -> (font: Self)
        ensures
            forall|digit: int| 0 <= digit < 16 ==> #[trigger] font.rows(digit) == glyph(digit),
    {
        Font(
            [
                [0xf0, 0x90, 0x90, 0x90, 0xf0],  // 0
                [0x20, 0x60, 0x20, 0x20, 0x70],  // 1
                [0xf0, 0x10, 0xf0, 0x80, 0xf0],  // 2
                [0xf0, 0x10, 0xf0, 0x10, 0xf0],  // 3
                [0x90, 0x90, 0xf0, 0x10, 0x10],  // 4
                [0xf0, 0x80, 0xf0, 0x10, 0xf0],  // 5
                [0xf0, 0x80, 0xf0, 0x90, 0xf0],  // 6
                [0xf0, 0x10, 0x20, 0x40, 0x40],  // 7
                [0xf0, 0x90, 0xf0, 0x90, 0xf0],  // 8
                [0xf0, 0x90, 0xf0, 0x10, 0xf0],  // 9
                [0xf0, 0x90, 0xf0, 0x90, 0x90],  // A
                [0xe0, 0x90, 0xe0, 0x90, 0xe0],  // B
                [0xf0, 0x80, 0x80, 0x80, 0xf0],  // C
                [0xe0, 0x90, 0x90, 0x90, 0xe0],  // D
                [0xf0, 0x80, 0xf0, 0x80, 0xf0],  // E
                [0xf0, 0x80, 0xf0, 0x80, 0x80],  // F
            ],
        )
    }
}

} // verus!
