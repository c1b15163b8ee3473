use chip8uwu::chip8::font::{Font, FONT_BYTES, GLYPH_COUNT, GLYPH_ROWS};
use chip8uwu::chip8::text::{pad_right, push_hex};

fn hexadecimal(value: u16, width: u8, upper: bool) -> String {
    let mut text = String::from(">");
    push_hex(&mut text, value, width, upper);
    text
}

#[test]
fn font_has_sixteen_glyphs_of_five_rows() {
    let font = Font::new();
    assert_eq!(GLYPH_COUNT, 16);
    assert_eq!(GLYPH_ROWS, 5);
    assert_eq!(FONT_BYTES, 80);
    assert_eq!(font.0.len(), GLYPH_COUNT);
    assert_eq!(font.0[0].len(), GLYPH_ROWS);
}

#[test]
fn font_table() {
    let font = Font::new();
    let expected: [[u8; 5]; 16] = [
        [0xf0, 0x90, 0x90, 0x90, 0xf0],
        [0x20, 0x60, 0x20, 0x20, 0x70],
        [0xf0, 0x10, 0xf0, 0x80, 0xf0],
        [0xf0, 0x10, 0xf0, 0x10, 0xf0],
        [0x90, 0x90, 0xf0, 0x10, 0x10],
        [0xf0, 0x80, 0xf0, 0x10, 0xf0],
        [0xf0, 0x80, 0xf0, 0x90, 0xf0],
        [0xf0, 0x10, 0x20, 0x40, 0x40],
        [0xf0, 0x90, 0xf0, 0x90, 0xf0],
        [0xf0, 0x90, 0xf0, 0x10, 0xf0],
        [0xf0, 0x90, 0xf0, 0x90, 0x90],
        [0xe0, 0x90, 0xe0, 0x90, 0xe0],
        [0xf0, 0x80, 0x80, 0x80, 0xf0],
        [0xe0, 0x90, 0x90, 0x90, 0xe0],
        [0xf0, 0x80, 0xf0, 0x80, 0xf0],
        [0xf0, 0x80, 0xf0, 0x80, 0x80],
    ];
    assert_eq!(font.0, expected);
}

#[test]
fn glyphs_keep_the_low_nibble_clear() {
    let font = Font::new();
    for glyph in font.0 {
        for row in glyph {
            assert_eq!(row & 0x0f, 0);
        }
    }
}

#[test]
fn hexadecimal_digits_and_padding() {
    assert_eq!(hexadecimal(0, 1, false), ">0");
    assert_eq!(hexadecimal(0, 0, false), ">0");
    assert_eq!(hexadecimal(9, 1, false), ">9");
    assert_eq!(hexadecimal(0xa, 1, false), ">a");
    assert_eq!(hexadecimal(0xa, 1, true), ">A");
    assert_eq!(hexadecimal(0xf, 2, false), ">0f");
    assert_eq!(hexadecimal(0x10, 1, false), ">10");
    assert_eq!(hexadecimal(0x123, 3, false), ">123");
    assert_eq!(hexadecimal(0x23, 3, false), ">023");
    assert_eq!(hexadecimal(0x200, 4, false), ">0200");
    assert_eq!(hexadecimal(0xffff, 1, false), ">ffff");
    assert_eq!(hexadecimal(0xbeef, 4, true), ">BEEF");
    assert_eq!(hexadecimal(0x1, 6, false), ">000001");
}

#[test]
fn hexadecimal_agrees_with_the_standard_formatter() {
    for value in 0..=0xffffu16 {
        assert_eq!(hexadecimal(value, 1, false), format!(">{value:01x}"));
        assert_eq!(hexadecimal(value, 3, false), format!(">{value:03x}"));
        assert_eq!(hexadecimal(value, 4, true), format!(">{value:04X}"));
    }
    for value in 0..=0xffu16 {
        assert_eq!(hexadecimal(value, 2, false), format!(">{value:02x}"));
        assert_eq!(hexadecimal(value, 2, true), format!(">{value:02X}"));
    }
}

#[test]
fn padding_fills_up_to_the_width_and_never_cuts() {
    assert_eq!(pad_right("MOV", 10), "MOV       ");
    assert_eq!(pad_right("", 3), "   ");
    assert_eq!(pad_right("SPRITECHAR", 10), "SPRITECHAR");
    assert_eq!(pad_right("SPRITECHARS", 10), "SPRITECHARS");
    assert_eq!(pad_right("x", 0), "x");
}
