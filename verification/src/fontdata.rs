//! Built-in CP437 bitmap font tables: 256 glyphs of one byte per row, the
//! most significant bit being the leftmost pixel.

use vstd::prelude::*;

verus! {

/// Glyph rows of the 8x16 font, 16 bytes per codepoint, part 1 of 16.
pub const FONT_8X16_P0: [u8; 256] = [
    0x00, 0x00, 0x00, 0x00, 0x00, 0x00, 0x00, 0x00, 0x00, 0x00, 0x00, 0x00, 0x00, 0x00, 0x00, 0x00,
    0x7e, 0x7e, 0x81, 0x81, 0xa5, 0xa5, 0x81, 0x81, 0xbd, 0xbd, 0x99, 0x99, 0x81, 0x81, 0x7e, 0x7e,
    0x7e, 0x7e, 0xff, 0xff, 0xdb, 0xdb, 0xff, 0xff, 0xc3, 0xc3, 0xe7, 0xe7, 0xff, 0xff, 0x7e, 0x7e,
    0x6c, 0x6c, 0xfe, 0xfe, 0xfe, 0xfe, 0xfe, 0xfe, 0x7c, 0x7c, 0x38, 0x38, 0x10, 0x10, 0x00, 0x00,
    0x10, 0x10, 0x38, 0x38, 0x7c, 0x7c, 0xfe, 0xfe, 0x7c, 0x7c, 0x38, 0x38, 0x10, 0x10, 0x00, 0x00,
    0x38, 0x38, 0x7c, 0x7c, 0x38, 0x38, 0xfe, 0xfe, 0xfe, 0xfe, 0x7c, 0x7c, 0x38, 0x38, 0x7c, 0x7c,
    0x10, 0x10, 0x10, 0x10, 0x38, 0x38, 0x7c, 0x7c, 0xfe, 0xfe, 0x7c, 0x7c, 0x38, 0x38, 0x7c, 0x7c,
    0x00, 0x00, 0x00, 0x00, 0x18, 0x18, 0x3c, 0x3c, 0x3c, 0x3c, 0x18, 0x18, 0x00, 0x00, 0x00, 0x00,
    0xff, 0xff, 0xff, 0xff, 0xe7, 0xe7, 0xc3, 0xc3, 0xc3, 0xc3, 0xe7, 0xe7, 0xff, 0xff, 0xff, 0xff,
    0x00, 0x00, 0x3c, 0x3c, 0x66, 0x66, 0x42, 0x42, 0x42, 0x42, 0x66, 0x66, 0x3c, 0x3c, 0x00, 0x00,
    0xff, 0xff, 0xc3, 0xc3, 0x99, 0x99, 0xbd, 0xbd, 0xbd, 0xbd, 0x99, 0x99, 0xc3, 0xc3, 0xff, 0xff,
    0x0f, 0x0f, 0x07, 0x07, 0x0f, 0x0f, 0x7d, 0x7d, 0xcc, 0xcc, 0xcc, 0xcc, 0xcc, 0xcc, 0x78, 0x78,
    0x3c, 0x3c, 0x66, 0x66, 0x66, 0x66, 0x66, 0x66, 0x3c, 0x3c, 0x18, 0x18, 0x7e, 0x7e, 0x18, 0x18,
    0x3f, 0x3f, 0x33, 0x33, 0x3f, 0x3f, 0x30, 0x30, 0x30, 0x30, 0x70, 0x70, 0xf0, 0xf0, 0xe0, 0xe0,
    0x7f, 0x7f, 0x63, 0x63, 0x7f, 0x7f, 0x63, 0x63, 0x63, 0x63, 0x67, 0x67, 0xe6, 0xe6, 0xc0, 0xc0,
    0x99, 0x99, 0x5a, 0x5a, 0x3c, 0x3c, 0xe7, 0xe7, 0xe7, 0xe7, 0x3c, 0x3c, 0x5a, 0x5a, 0x99, 0x99,
];

/// Glyph rows of the 8x16 font, 16 bytes per codepoint, part 2 of 16.
pub const FONT_8X16_P1: [u8; 256] = [
    0x80, 0x80, 0xe0, 0xe0, 0xf8, 0xf8, 0xfe, 0xfe, 0xf8, 0xf8, 0xe0, 0xe0, 0x80, 0x80, 0x00, 0x00,
    0x02, 0x02, 0x0e, 0x0e, 0x3e, 0x3e, 0xfe, 0xfe, 0x3e, 0x3e, 0x0e, 0x0e, 0x02, 0x02, 0x00, 0x00,
    0x18, 0x18, 0x3c, 0x3c, 0x7e, 0x7e, 0x18, 0x18, 0x18, 0x18, 0x7e, 0x7e, 0x3c, 0x3c, 0x18, 0x18,
    0x66, 0x66, 0x66, 0x66, 0x66, 0x66, 0x66, 0x66, 0x66, 0x66, 0x00, 0x00, 0x66, 0x66, 0x00, 0x00,
    0x7f, 0x7f, 0xdb, 0xdb, 0xdb, 0xdb, 0x7b, 0x7b, 0x1b, 0x1b, 0x1b, 0x1b, 0x1b, 0x1b, 0x00, 0x00,
    0x3e, 0x3e, 0x63, 0x63, 0x38, 0x38, 0x6c, 0x6c, 0x6c, 0x6c, 0x38, 0x38, 0xcc, 0xcc, 0x78, 0x78,
    0x00, 0x00, 0x00, 0x00, 0x00, 0x00, 0x00, 0x00, 0x7e, 0x7e, 0x7e, 0x7e, 0x7e, 0x7e, 0x00, 0x00,
    0x18, 0x18, 0x3c, 0x3c, 0x7e, 0x7e, 0x18, 0x18, 0x7e, 0x7e, 0x3c, 0x3c, 0x18, 0x18, 0xff, 0xff,
    0x18, 0x18, 0x3c, 0x3c, 0x7e, 0x7e, 0x18, 0x18, 0x18, 0x18, 0x18, 0x18, 0x18, 0x18, 0x00, 0x00,
    0x18, 0x18, 0x18, 0x18, 0x18, 0x18, 0x18, 0x18, 0x7e, 0x7e, 0x3c, 0x3c, 0x18, 0x18, 0x00, 0x00,
    0x00, 0x00, 0x18, 0x18, 0x0c, 0x0c, 0xfe, 0xfe, 0x0c, 0x0c, 0x18, 0x18, 0x00, 0x00, 0x00, 0x00,
    0x00, 0x00, 0x30, 0x30, 0x60, 0x60, 0xfe, 0xfe, 0x60, 0x60, 0x30, 0x30, 0x00, 0x00, 0x00, 0x00,
    0x00, 0x00, 0x00, 0x00, 0xc0, 0xc0, 0xc0, 0xc0, 0xc0, 0xc0, 0xfe, 0xfe, 0x00, 0x00, 0x00, 0x00,
    0x00, 0x00, 0x24, 0x24, 0x66, 0x66, 0xff, 0xff, 0x66, 0x66, 0x24, 0x24, 0x00, 0x00, 0x00, 0x00,
    0x00, 0x00, 0x18, 0x18, 0x3c, 0x3c, 0x7e, 0x7e, 0xff, 0xff, 0xff, 0xff, 0x00, 0x00, 0x00, 0x00,
    0x00, 0x00, 0xff, 0xff, 0xff, 0xff, 0x7e, 0x7e, 0x3c, 0x3c, 0x18, 0x18, 0x00, 0x00, 0x00, 0x00,
];

/// Glyph rows of the 8x16 font, 16 bytes per codepoint, part 3 of 16.
pub const FONT_8X16_P2: [u8; 256] = [
    0x00, 0x00, 0x00, 0x00, 0x00, 0x00, 0x00, 0x00, 0x00, 0x00, 0x00, 0x00, 0x00, 0x00, 0x00, 0x00,
    0x30, 0x30, 0x78, 0x78, 0x78, 0x78, 0x30, 0x30, 0x30, 0x30, 0x00, 0x00, 0x30, 0x30, 0x00, 0x00,
    0x6c, 0x6c, 0x6c, 0x6c, 0x6c, 0x6c, 0x00, 0x00, 0x00, 0x00, 0x00, 0x00, 0x00, 0x00, 0x00, 0x00,
    0x6c, 0x6c, 0x6c, 0x6c, 0xfe, 0xfe, 0x6c, 0x6c, 0xfe, 0xfe, 0x6c, 0x6c, 0x6c, 0x6c, 0x00, 0x00,
    0x30, 0x30, 0x7c, 0x7c, 0xc0, 0xc0, 0x78, 0x78, 0x0c, 0x0c, 0xf8, 0xf8, 0x30, 0x30, 0x00, 0x00,
    0x00, 0x00, 0xc6, 0xc6, 0xcc, 0xcc, 0x18, 0x18, 0x30, 0x30, 0x66, 0x66, 0xc6, 0xc6, 0x00, 0x00,
    0x38, 0x38, 0x6c, 0x6c, 0x38, 0x38, 0x76, 0x76, 0xdc, 0xdc, 0xcc, 0xcc, 0x76, 0x76, 0x00, 0x00,
    0x60, 0x60, 0x60, 0x60, 0xc0, 0xc0, 0x00, 0x00, 0x00, 0x00, 0x00, 0x00, 0x00, 0x00, 0x00, 0x00,
    0x18, 0x18, 0x30, 0x30, 0x60, 0x60, 0x60, 0x60, 0x60, 0x60, 0x30, 0x30, 0x18, 0x18, 0x00, 0x00,
    0x60, 0x60, 0x30, 0x30, 0x18, 0x18, 0x18, 0x18, 0x18, 0x18, 0x30, 0x30, 0x60, 0x60, 0x00, 0x00,
    0x00, 0x00, 0x66, 0x66, 0x3c, 0x3c, 0xff, 0xff, 0x3c, 0x3c, 0x66, 0x66, 0x00, 0x00, 0x00, 0x00,
    0x00, 0x00, 0x30, 0x30, 0x30, 0x30, 0xfc, 0xfc, 0x30, 0x30, 0x30, 0x30, 0x00, 0x00, 0x00, 0x00,
    0x00, 0x00, 0x00, 0x00, 0x00, 0x00, 0x00, 0x00, 0x00, 0x00, 0x30, 0x30, 0x30, 0x30, 0x60, 0x60,
    0x00, 0x00, 0x00, 0x00, 0x00, 0x00, 0xfc, 0xfc, 0x00, 0x00, 0x00, 0x00, 0x00, 0x00, 0x00, 0x00,
    0x00, 0x00, 0x00, 0x00, 0x00, 0x00, 0x00, 0x00, 0x00, 0x00, 0x30, 0x30, 0x30, 0x30, 0x00, 0x00,
    0x06, 0x06, 0x0c, 0x0c, 0x18, 0x18, 0x30, 0x30, 0x60, 0x60, 0xc0, 0xc0, 0x80, 0x80, 0x00, 0x00,
];

/// Glyph rows of the 8x16 font, 16 bytes per codepoint, part 4 of 16.
pub const FONT_8X16_P3: [u8; 256] = [
    0x7c, 0x7c, 0xc6, 0xc6, 0xce, 0xce, 0xde, 0xde, 0xf6, 0xf6, 0xe6, 0xe6, 0x7c, 0x7c, 0x00, 0x00,
    0x30, 0x30, 0x70, 0x70, 0x30, 0x30, 0x30, 0x30, 0x30, 0x30, 0x30, 0x30, 0xfc, 0xfc, 0x00, 0x00,
    0x78, 0x78, 0xcc, 0xcc, 0x0c, 0x0c, 0x38, 0x38, 0x60, 0x60, 0xcc, 0xcc, 0xfc, 0xfc, 0x00, 0x00,
    0x78, 0x78, 0xcc, 0xcc, 0x0c, 0x0c, 0x38, 0x38, 0x0c, 0x0c, 0xcc, 0xcc, 0x78, 0x78, 0x00, 0x00,
    0x1c, 0x1c, 0x3c, 0x3c, 0x6c, 0x6c, 0xcc, 0xcc, 0xfe, 0xfe, 0x0c, 0x0c, 0x1e, 0x1e, 0x00, 0x00,
    0xfc, 0xfc, 0xc0, 0xc0, 0xf8, 0xf8, 0x0c, 0x0c, 0x0c, 0x0c, 0xcc, 0xcc, 0x78, 0x78, 0x00, 0x00,
    0x38, 0x38, 0x60, 0x60, 0xc0, 0xc0, 0xf8, 0xf8, 0xcc, 0xcc, 0xcc, 0xcc, 0x78, 0x78, 0x00, 0x00,
    0xfc, 0xfc, 0xcc, 0xcc, 0x0c, 0x0c, 0x18, 0x18, 0x30, 0x30, 0x30, 0x30, 0x30, 0x30, 0x00, 0x00,
    0x78, 0x78, 0xcc, 0xcc, 0xcc, 0xcc, 0x78, 0x78, 0xcc, 0xcc, 0xcc, 0xcc, 0x78, 0x78, 0x00, 0x00,
    0x78, 0x78, 0xcc, 0xcc, 0xcc, 0xcc, 0x7c, 0x7c, 0x0c, 0x0c, 0x18, 0x18, 0x70, 0x70, 0x00, 0x00,
    0x00, 0x00, 0x30, 0x30, 0x30, 0x30, 0x00, 0x00, 0x00, 0x00, 0x30, 0x30, 0x30, 0x30, 0x00, 0x00,
    0x00, 0x00, 0x30, 0x30, 0x30, 0x30, 0x00, 0x00, 0x00, 0x00, 0x30, 0x30, 0x30, 0x30, 0x60, 0x60,
    0x18, 0x18, 0x30, 0x30, 0x60, 0x60, 0xc0, 0xc0, 0x60, 0x60, 0x30, 0x30, 0x18, 0x18, 0x00, 0x00,
    0x00, 0x00, 0x00, 0x00, 0xfc, 0xfc, 0x00, 0x00, 0x00, 0x00, 0xfc, 0xfc, 0x00, 0x00, 0x00, 0x00,
    0x60, 0x60, 0x30, 0x30, 0x18, 0x18, 0x0c, 0x0c, 0x18, 0x18, 0x30, 0x30, 0x60, 0x60, 0x00, 0x00,
    0x78, 0x78, 0xcc, 0xcc, 0x0c, 0x0c, 0x18, 0x18, 0x30, 0x30, 0x00, 0x00, 0x30, 0x30, 0x00, 0x00,
];

/// Glyph rows of the 8x16 font, 16 bytes per codepoint, part 5 of 16.
pub const FONT_8X16_P4: [u8; 256] = [
    0x7c, 0x7c, 0xc6, 0xc6, 0xde, 0xde, 0xde, 0xde, 0xde, 0xde, 0xc0, 0xc0, 0x78, 0x78, 0x00, 0x00,
    0x30, 0x30, 0x78, 0x78, 0xcc, 0xcc, 0xcc, 0xcc, 0xfc, 0xfc, 0xcc, 0xcc, 0xcc, 0xcc, 0x00, 0x00,
    0xfc, 0xfc, 0x66, 0x66, 0x66, 0x66, 0x7c, 0x7c, 0x66, 0x66, 0x66, 0x66, 0xfc, 0xfc, 0x00, 0x00,
    0x3c, 0x3c, 0x66, 0x66, 0xc0, 0xc0, 0xc0, 0xc0, 0xc0, 0xc0, 0x66, 0x66, 0x3c, 0x3c, 0x00, 0x00,
    0xf8, 0xf8, 0x6c, 0x6c, 0x66, 0x66, 0x66, 0x66, 0x66, 0x66, 0x6c, 0x6c, 0xf8, 0xf8, 0x00, 0x00,
    0xfe, 0xfe, 0x62, 0x62, 0x68, 0x68, 0x78, 0x78, 0x68, 0x68, 0x62, 0x62, 0xfe, 0xfe, 0x00, 0x00,
    0xfe, 0xfe, 0x62, 0x62, 0x68, 0x68, 0x78, 0x78, 0x68, 0x68, 0x60, 0x60, 0xf0, 0xf0, 0x00, 0x00,
    0x3c, 0x3c, 0x66, 0x66, 0xc0, 0xc0, 0xc0, 0xc0, 0xce, 0xce, 0x66, 0x66, 0x3e, 0x3e, 0x00, 0x00,
    0xcc, 0xcc, 0xcc, 0xcc, 0xcc, 0xcc, 0xfc, 0xfc, 0xcc, 0xcc, 0xcc, 0xcc, 0xcc, 0xcc, 0x00, 0x00,
    0x78, 0x78, 0x30, 0x30, 0x30, 0x30, 0x30, 0x30, 0x30, 0x30, 0x30, 0x30, 0x78, 0x78, 0x00, 0x00,
    0x1e, 0x1e, 0x0c, 0x0c, 0x0c, 0x0c, 0x0c, 0x0c, 0xcc, 0xcc, 0xcc, 0xcc, 0x78, 0x78, 0x00, 0x00,
    0xe6, 0xe6, 0x66, 0x66, 0x6c, 0x6c, 0x78, 0x78, 0x6c, 0x6c, 0x66, 0x66, 0xe6, 0xe6, 0x00, 0x00,
    0xf0, 0xf0, 0x60, 0x60, 0x60, 0x60, 0x60, 0x60, 0x62, 0x62, 0x66, 0x66, 0xfe, 0xfe, 0x00, 0x00,
    0xc6, 0xc6, 0xee, 0xee, 0xfe, 0xfe, 0xfe, 0xfe, 0xd6, 0xd6, 0xc6, 0xc6, 0xc6, 0xc6, 0x00, 0x00,
    0xc6, 0xc6, 0xe6, 0xe6, 0xf6, 0xf6, 0xde, 0xde, 0xce, 0xce, 0xc6, 0xc6, 0xc6, 0xc6, 0x00, 0x00,
    0x38, 0x38, 0x6c, 0x6c, 0xc6, 0xc6, 0xc6, 0xc6, 0xc6, 0xc6, 0x6c, 0x6c, 0x38, 0x38, 0x00, 0x00,
];

/// Glyph rows of the 8x16 font, 16 bytes per codepoint, part 6 of 16.
pub const FONT_8X16_P5: [u8; 256] = [
    0xfc, 0xfc, 0x66, 0x66, 0x66, 0x66, 0x7c, 0x7c, 0x60, 0x60, 0x60, 0x60, 0xf0, 0xf0, 0x00, 0x00,
    0x78, 0x78, 0xcc, 0xcc, 0xcc, 0xcc, 0xcc, 0xcc, 0xdc, 0xdc, 0x78, 0x78, 0x1c, 0x1c, 0x00, 0x00,
    0xfc, 0xfc, 0x66, 0x66, 0x66, 0x66, 0x7c, 0x7c, 0x6c, 0x6c, 0x66, 0x66, 0xe6, 0xe6, 0x00, 0x00,
    0x78, 0x78, 0xcc, 0xcc, 0xe0, 0xe0, 0x70, 0x70, 0x1c, 0x1c, 0xcc, 0xcc, 0x78, 0x78, 0x00, 0x00,
    0xfc, 0xfc, 0xb4, 0xb4, 0x30, 0x30, 0x30, 0x30, 0x30, 0x30, 0x30, 0x30, 0x78, 0x78, 0x00, 0x00,
    0xcc, 0xcc, 0xcc, 0xcc, 0xcc, 0xcc, 0xcc, 0xcc, 0xcc, 0xcc, 0xcc, 0xcc, 0xfc, 0xfc, 0x00, 0x00,
    0xcc, 0xcc, 0xcc, 0xcc, 0xcc, 0xcc, 0xcc, 0xcc, 0xcc, 0xcc, 0x78, 0x78, 0x30, 0x30, 0x00, 0x00,
    0xc6, 0xc6, 0xc6, 0xc6, 0xc6, 0xc6, 0xd6, 0xd6, 0xfe, 0xfe, 0xee, 0xee, 0xc6, 0xc6, 0x00, 0x00,
    0xc6, 0xc6, 0xc6, 0xc6, 0x6c, 0x6c, 0x38, 0x38, 0x38, 0x38, 0x6c, 0x6c, 0xc6, 0xc6, 0x00, 0x00,
    0xcc, 0xcc, 0xcc, 0xcc, 0xcc, 0xcc, 0x78, 0x78, 0x30, 0x30, 0x30, 0x30, 0x78, 0x78, 0x00, 0x00,
    0xfe, 0xfe, 0xc6, 0xc6, 0x8c, 0x8c, 0x18, 0x18, 0x32, 0x32, 0x66, 0x66, 0xfe, 0xfe, 0x00, 0x00,
    0x78, 0x78, 0x60, 0x60, 0x60, 0x60, 0x60, 0x60, 0x60, 0x60, 0x60, 0x60, 0x78, 0x78, 0x00, 0x00,
    0xc0, 0xc0, 0x60, 0x60, 0x30, 0x30, 0x18, 0x18, 0x0c, 0x0c, 0x06, 0x06, 0x02, 0x02, 0x00, 0x00,
    0x78, 0x78, 0x18, 0x18, 0x18, 0x18, 0x18, 0x18, 0x18, 0x18, 0x18, 0x18, 0x78, 0x78, 0x00, 0x00,
    0x10, 0x10, 0x38, 0x38, 0x6c, 0x6c, 0xc6, 0xc6, 0x00, 0x00, 0x00, 0x00, 0x00, 0x00, 0x00, 0x00,
    0x00, 0x00, 0x00, 0x00, 0x00, 0x00, 0x00, 0x00, 0x00, 0x00, 0x00, 0x00, 0x00, 0x00, 0xff, 0xff,
];

/// Glyph rows of the 8x16 font, 16 bytes per codepoint, part 7 of 16.
pub const FONT_8X16_P6: [u8; 256] = [
    0x30, 0x30, 0x30, 0x30, 0x18, 0x18, 0x00, 0x00, 0x00, 0x00, 0x00, 0x00, 0x00, 0x00, 0x00, 0x00,
    0x00, 0x00, 0x00, 0x00, 0x78, 0x78, 0x0c, 0x0c, 0x7c, 0x7c, 0xcc, 0xcc, 0x76, 0x76, 0x00, 0x00,
    0xe0, 0xe0, 0x60, 0x60, 0x60, 0x60, 0x7c, 0x7c, 0x66, 0x66, 0x66, 0x66, 0xdc, 0xdc, 0x00, 0x00,
    0x00, 0x00, 0x00, 0x00, 0x78, 0x78, 0xcc, 0xcc, 0xc0, 0xc0, 0xcc, 0xcc, 0x78, 0x78, 0x00, 0x00,
    0x1c, 0x1c, 0x0c, 0x0c, 0x0c, 0x0c, 0x7c, 0x7c, 0xcc, 0xcc, 0xcc, 0xcc, 0x76, 0x76, 0x00, 0x00,
    0x00, 0x00, 0x00, 0x00, 0x78, 0x78, 0xcc, 0xcc, 0xfc, 0xfc, 0xc0, 0xc0, 0x78, 0x78, 0x00, 0x00,
    0x38, 0x38, 0x6c, 0x6c, 0x60, 0x60, 0xf0, 0xf0, 0x60, 0x60, 0x60, 0x60, 0xf0, 0xf0, 0x00, 0x00,
    0x00, 0x00, 0x00, 0x00, 0x76, 0x76, 0xcc, 0xcc, 0xcc, 0xcc, 0x7c, 0x7c, 0x0c, 0x0c, 0xf8, 0xf8,
    0xe0, 0xe0, 0x60, 0x60, 0x6c, 0x6c, 0x76, 0x76, 0x66, 0x66, 0x66, 0x66, 0xe6, 0xe6, 0x00, 0x00,
    0x30, 0x30, 0x00, 0x00, 0x70, 0x70, 0x30, 0x30, 0x30, 0x30, 0x30, 0x30, 0x78, 0x78, 0x00, 0x00,
    0x0c, 0x0c, 0x00, 0x00, 0x0c, 0x0c, 0x0c, 0x0c, 0x0c, 0x0c, 0xcc, 0xcc, 0xcc, 0xcc, 0x78, 0x78,
    0xe0, 0xe0, 0x60, 0x60, 0x66, 0x66, 0x6c, 0x6c, 0x78, 0x78, 0x6c, 0x6c, 0xe6, 0xe6, 0x00, 0x00,
    0x70, 0x70, 0x30, 0x30, 0x30, 0x30, 0x30, 0x30, 0x30, 0x30, 0x30, 0x30, 0x78, 0x78, 0x00, 0x00,
    0x00, 0x00, 0x00, 0x00, 0xcc, 0xcc, 0xfe, 0xfe, 0xfe, 0xfe, 0xd6, 0xd6, 0xc6, 0xc6, 0x00, 0x00,
    0x00, 0x00, 0x00, 0x00, 0xf8, 0xf8, 0xcc, 0xcc, 0xcc, 0xcc, 0xcc, 0xcc, 0xcc, 0xcc, 0x00, 0x00,
    0x00, 0x00, 0x00, 0x00, 0x78, 0x78, 0xcc, 0xcc, 0xcc, 0xcc, 0xcc, 0xcc, 0x78, 0x78, 0x00, 0x00,
];

/// Glyph rows of the 8x16 font, 16 bytes per codepoint, part 8 of 16.
pub const FONT_8X16_P7: [u8; 256] = [
    0x00, 0x00, 0x00, 0x00, 0xdc, 0xdc, 0x66, 0x66, 0x66, 0x66, 0x7c, 0x7c, 0x60, 0x60, 0xf0, 0xf0,
    0x00, 0x00, 0x00, 0x00, 0x76, 0x76, 0xcc, 0xcc, 0xcc, 0xcc, 0x7c, 0x7c, 0x0c, 0x0c, 0x1e, 0x1e,
    0x00, 0x00, 0x00, 0x00, 0xdc, 0xdc, 0x76, 0x76, 0x66, 0x66, 0x60, 0x60, 0xf0, 0xf0, 0x00, 0x00,
    0x00, 0x00, 0x00, 0x00, 0x7c, 0x7c, 0xc0, 0xc0, 0x78, 0x78, 0x0c, 0x0c, 0xf8, 0xf8, 0x00, 0x00,
    0x10, 0x10, 0x30, 0x30, 0x7c, 0x7c, 0x30, 0x30, 0x30, 0x30, 0x34, 0x34, 0x18, 0x18, 0x00, 0x00,
    0x00, 0x00, 0x00, 0x00, 0xcc, 0xcc, 0xcc, 0xcc, 0xcc, 0xcc, 0xcc, 0xcc, 0x76, 0x76, 0x00, 0x00,
    0x00, 0x00, 0x00, 0x00, 0xcc, 0xcc, 0xcc, 0xcc, 0xcc, 0xcc, 0x78, 0x78, 0x30, 0x30, 0x00, 0x00,
    0x00, 0x00, 0x00, 0x00, 0xc6, 0xc6, 0xd6, 0xd6, 0xfe, 0xfe, 0xfe, 0xfe, 0x6c, 0x6c, 0x00, 0x00,
    0x00, 0x00, 0x00, 0x00, 0xc6, 0xc6, 0x6c, 0x6c, 0x38, 0x38, 0x6c, 0x6c, 0xc6, 0xc6, 0x00, 0x00,
    0x00, 0x00, 0x00, 0x00, 0xcc, 0xcc, 0xcc, 0xcc, 0xcc, 0xcc, 0x7c, 0x7c, 0x0c, 0x0c, 0xf8, 0xf8,
    0x00, 0x00, 0x00, 0x00, 0xfc, 0xfc, 0x98, 0x98, 0x30, 0x30, 0x64, 0x64, 0xfc, 0xfc, 0x00, 0x00,
    0x1c, 0x1c, 0x30, 0x30, 0x30, 0x30, 0xe0, 0xe0, 0x30, 0x30, 0x30, 0x30, 0x1c, 0x1c, 0x00, 0x00,
    0x18, 0x18, 0x18, 0x18, 0x18, 0x18, 0x00, 0x00, 0x18, 0x18, 0x18, 0x18, 0x18, 0x18, 0x00, 0x00,
    0xe0, 0xe0, 0x30, 0x30, 0x30, 0x30, 0x1c, 0x1c, 0x30, 0x30, 0x30, 0x30, 0xe0, 0xe0, 0x00, 0x00,
    0x76, 0x76, 0xdc, 0xdc, 0x00, 0x00, 0x00, 0x00, 0x00, 0x00, 0x00, 0x00, 0x00, 0x00, 0x00, 0x00,
    0x00, 0x00, 0x10, 0x10, 0x38, 0x38, 0x6c, 0x6c, 0xc6, 0xc6, 0xc6, 0xc6, 0xfe, 0xfe, 0x00, 0x00,
];

/// Glyph rows of the 8x16 font, 16 bytes per codepoint, part 9 of 16.
pub const FONT_8X16_P8: [u8; 256] = [
    0x78, 0x78, 0xcc, 0xcc, 0xc0, 0xc0, 0xcc, 0xcc, 0x78, 0x78, 0x18, 0x18, 0x0c, 0x0c, 0x78, 0x78,
    0x00, 0x00, 0xcc, 0xcc, 0x00, 0x00, 0xcc, 0xcc, 0xcc, 0xcc, 0xcc, 0xcc, 0x7e, 0x7e, 0x00, 0x00,
    0x1c, 0x1c, 0x00, 0x00, 0x78, 0x78, 0xcc, 0xcc, 0xfc, 0xfc, 0xc0, 0xc0, 0x78, 0x78, 0x00, 0x00,
    0x7e, 0x7e, 0xc3, 0xc3, 0x3c, 0x3c, 0x06, 0x06, 0x3e, 0x3e, 0x66, 0x66, 0x3f, 0x3f, 0x00, 0x00,
    0xcc, 0xcc, 0x00, 0x00, 0x78, 0x78, 0x0c, 0x0c, 0x7c, 0x7c, 0xcc, 0xcc, 0x7e, 0x7e, 0x00, 0x00,
    0xe0, 0xe0, 0x00, 0x00, 0x78, 0x78, 0x0c, 0x0c, 0x7c, 0x7c, 0xcc, 0xcc, 0x7e, 0x7e, 0x00, 0x00,
    0x30, 0x30, 0x30, 0x30, 0x78, 0x78, 0x0c, 0x0c, 0x7c, 0x7c, 0xcc, 0xcc, 0x7e, 0x7e, 0x00, 0x00,
    0x00, 0x00, 0x00, 0x00, 0x78, 0x78, 0xc0, 0xc0, 0xc0, 0xc0, 0x78, 0x78, 0x0c, 0x0c, 0x38, 0x38,
    0x7e, 0x7e, 0xc3, 0xc3, 0x3c, 0x3c, 0x66, 0x66, 0x7e, 0x7e, 0x60, 0x60, 0x3c, 0x3c, 0x00, 0x00,
    0xcc, 0xcc, 0x00, 0x00, 0x78, 0x78, 0xcc, 0xcc, 0xfc, 0xfc, 0xc0, 0xc0, 0x78, 0x78, 0x00, 0x00,
    0xe0, 0xe0, 0x00, 0x00, 0x78, 0x78, 0xcc, 0xcc, 0xfc, 0xfc, 0xc0, 0xc0, 0x78, 0x78, 0x00, 0x00,
    0xcc, 0xcc, 0x00, 0x00, 0x70, 0x70, 0x30, 0x30, 0x30, 0x30, 0x30, 0x30, 0x78, 0x78, 0x00, 0x00,
    0x7c, 0x7c, 0xc6, 0xc6, 0x38, 0x38, 0x18, 0x18, 0x18, 0x18, 0x18, 0x18, 0x3c, 0x3c, 0x00, 0x00,
    0xe0, 0xe0, 0x00, 0x00, 0x70, 0x70, 0x30, 0x30, 0x30, 0x30, 0x30, 0x30, 0x78, 0x78, 0x00, 0x00,
    0xc6, 0xc6, 0x38, 0x38, 0x6c, 0x6c, 0xc6, 0xc6, 0xfe, 0xfe, 0xc6, 0xc6, 0xc6, 0xc6, 0x00, 0x00,
    0x30, 0x30, 0x30, 0x30, 0x00, 0x00, 0x78, 0x78, 0xcc, 0xcc, 0xfc, 0xfc, 0xcc, 0xcc, 0x00, 0x00,
];

/// Glyph rows of the 8x16 font, 16 bytes per codepoint, part 10 of 16.
pub const FONT_8X16_P9: [u8; 256] = [
    0x1c, 0x1c, 0x00, 0x00, 0xfc, 0xfc, 0x60, 0x60, 0x78, 0x78, 0x60, 0x60, 0xfc, 0xfc, 0x00, 0x00,
    0x00, 0x00, 0x00, 0x00, 0x7f, 0x7f, 0x0c, 0x0c, 0x7f, 0x7f, 0xcc, 0xcc, 0x7f, 0x7f, 0x00, 0x00,
    0x3e, 0x3e, 0x6c, 0x6c, 0xcc, 0xcc, 0xfe, 0xfe, 0xcc, 0xcc, 0xcc, 0xcc, 0xce, 0xce, 0x00, 0x00,
    0x78, 0x78, 0xcc, 0xcc, 0x00, 0x00, 0x78, 0x78, 0xcc, 0xcc, 0xcc, 0xcc, 0x78, 0x78, 0x00, 0x00,
    0x00, 0x00, 0xcc, 0xcc, 0x00, 0x00, 0x78, 0x78, 0xcc, 0xcc, 0xcc, 0xcc, 0x78, 0x78, 0x00, 0x00,
    0x00, 0x00, 0xe0, 0xe0, 0x00, 0x00, 0x78, 0x78, 0xcc, 0xcc, 0xcc, 0xcc, 0x78, 0x78, 0x00, 0x00,
    0x78, 0x78, 0xcc, 0xcc, 0x00, 0x00, 0xcc, 0xcc, 0xcc, 0xcc, 0xcc, 0xcc, 0x7e, 0x7e, 0x00, 0x00,
    0x00, 0x00, 0xe0, 0xe0, 0x00, 0x00, 0xcc, 0xcc, 0xcc, 0xcc, 0xcc, 0xcc, 0x7e, 0x7e, 0x00, 0x00,
    0x00, 0x00, 0xcc, 0xcc, 0x00, 0x00, 0xcc, 0xcc, 0xcc, 0xcc, 0x7c, 0x7c, 0x0c, 0x0c, 0xf8, 0xf8,
    0xc3, 0xc3, 0x18, 0x18, 0x3c, 0x3c, 0x66, 0x66, 0x66, 0x66, 0x3c, 0x3c, 0x18, 0x18, 0x00, 0x00,
    0xcc, 0xcc, 0x00, 0x00, 0xcc, 0xcc, 0xcc, 0xcc, 0xcc, 0xcc, 0xcc, 0xcc, 0x78, 0x78, 0x00, 0x00,
    0x18, 0x18, 0x18, 0x18, 0x7e, 0x7e, 0xc0, 0xc0, 0xc0, 0xc0, 0x7e, 0x7e, 0x18, 0x18, 0x18, 0x18,
    0x38, 0x38, 0x6c, 0x6c, 0x64, 0x64, 0xf0, 0xf0, 0x60, 0x60, 0xe6, 0xe6, 0xfc, 0xfc, 0x00, 0x00,
    0xcc, 0xcc, 0xcc, 0xcc, 0x78, 0x78, 0xfc, 0xfc, 0x30, 0x30, 0xfc, 0xfc, 0x30, 0x30, 0x30, 0x30,
    0xf8, 0xf8, 0xcc, 0xcc, 0xcc, 0xcc, 0xfa, 0xfa, 0xc6, 0xc6, 0xcf, 0xcf, 0xc6, 0xc6, 0xc7, 0xc7,
    0x0e, 0x0e, 0x1b, 0x1b, 0x18, 0x18, 0x3c, 0x3c, 0x18, 0x18, 0x18, 0x18, 0xd8, 0xd8, 0x70, 0x70,
];

/// Glyph rows of the 8x16 font, 16 bytes per codepoint, part 11 of 16.
pub const FONT_8X16_P10: [u8; 256] = [
    0x1c, 0x1c, 0x00, 0x00, 0x78, 0x78, 0x0c, 0x0c, 0x7c, 0x7c, 0xcc, 0xcc, 0x7e, 0x7e, 0x00, 0x00,
    0x38, 0x38, 0x00, 0x00, 0x70, 0x70, 0x30, 0x30, 0x30, 0x30, 0x30, 0x30, 0x78, 0x78, 0x00, 0x00,
    0x00, 0x00, 0x1c, 0x1c, 0x00, 0x00, 0x78, 0x78, 0xcc, 0xcc, 0xcc, 0xcc, 0x78, 0x78, 0x00, 0x00,
    0x00, 0x00, 0x1c, 0x1c, 0x00, 0x00, 0xcc, 0xcc, 0xcc, 0xcc, 0xcc, 0xcc, 0x7e, 0x7e, 0x00, 0x00,
    0x00, 0x00, 0xf8, 0xf8, 0x00, 0x00, 0xf8, 0xf8, 0xcc, 0xcc, 0xcc, 0xcc, 0xcc, 0xcc, 0x00, 0x00,
    0xfc, 0xfc, 0x00, 0x00, 0xcc, 0xcc, 0xec, 0xec, 0xfc, 0xfc, 0xdc, 0xdc, 0xcc, 0xcc, 0x00, 0x00,
    0x3c, 0x3c, 0x6c, 0x6c, 0x6c, 0x6c, 0x3e, 0x3e, 0x00, 0x00, 0x7e, 0x7e, 0x00, 0x00, 0x00, 0x00,
    0x38, 0x38, 0x6c, 0x6c, 0x6c, 0x6c, 0x38, 0x38, 0x00, 0x00, 0x7c, 0x7c, 0x00, 0x00, 0x00, 0x00,
    0x30, 0x30, 0x00, 0x00, 0x30, 0x30, 0x60, 0x60, 0xc0, 0xc0, 0xcc, 0xcc, 0x78, 0x78, 0x00, 0x00,
    0x00, 0x00, 0x00, 0x00, 0x00, 0x00, 0xfc, 0xfc, 0xc0, 0xc0, 0xc0, 0xc0, 0x00, 0x00, 0x00, 0x00,
    0x00, 0x00, 0x00, 0x00, 0x00, 0x00, 0xfc, 0xfc, 0x0c, 0x0c, 0x0c, 0x0c, 0x00, 0x00, 0x00, 0x00,
    0xc3, 0xc3, 0xc6, 0xc6, 0xcc, 0xcc, 0xde, 0xde, 0x33, 0x33, 0x66, 0x66, 0xcc, 0xcc, 0x0f, 0x0f,
    0xc3, 0xc3, 0xc6, 0xc6, 0xcc, 0xcc, 0xdb, 0xdb, 0x37, 0x37, 0x6f, 0x6f, 0xcf, 0xcf, 0x03, 0x03,
    0x18, 0x18, 0x18, 0x18, 0x00, 0x00, 0x18, 0x18, 0x18, 0x18, 0x18, 0x18, 0x18, 0x18, 0x00, 0x00,
    0x00, 0x00, 0x33, 0x33, 0x66, 0x66, 0xcc, 0xcc, 0x66, 0x66, 0x33, 0x33, 0x00, 0x00, 0x00, 0x00,
    0x00, 0x00, 0xcc, 0xcc, 0x66, 0x66, 0x33, 0x33, 0x66, 0x66, 0xcc, 0xcc, 0x00, 0x00, 0x00, 0x00,
];

/// Glyph rows of the 8x16 font, 16 bytes per codepoint, part 12 of 16.
pub const FONT_8X16_P11: [u8; 256] = [
    0x88, 0x22, 0x88, 0x22, 0x88, 0x22, 0x88, 0x22, 0x88, 0x22, 0x88, 0x22, 0x88, 0x22, 0x88, 0x22,
    0xaa, 0x55, 0xaa, 0x55, 0xaa, 0x55, 0xaa, 0x55, 0xaa, 0x55, 0xaa, 0x55, 0xaa, 0x55, 0xaa, 0x55,
    0xdd, 0x77, 0xdd, 0x77, 0xdd, 0x77, 0xdd, 0x77, 0xdd, 0x77, 0xdd, 0x77, 0xdd, 0x77, 0xdd, 0x77,
    0x18, 0x18, 0x18, 0x18, 0x18, 0x18, 0x18, 0x18, 0x18, 0x18, 0x18, 0x18, 0x18, 0x18, 0x18, 0x18,
    0x18, 0x18, 0x18, 0x18, 0x18, 0x18, 0xf8, 0xf8, 0x18, 0x18, 0x18, 0x18, 0x18, 0x18, 0x18, 0x18,
    0x18, 0x18, 0x18, 0x18, 0xf8, 0xf8, 0x18, 0x18, 0xf8, 0xf8, 0x18, 0x18, 0x18, 0x18, 0x18, 0x18,
    0x66, 0x66, 0x66, 0x66, 0x66, 0x66, 0xe6, 0xe6, 0x66, 0x66, 0x66, 0x66, 0x66, 0x66, 0x66, 0x66,
    0x00, 0x00, 0x00, 0x00, 0x00, 0x00, 0xfe, 0xfe, 0x66, 0x66, 0x66, 0x66, 0x66, 0x66, 0x66, 0x66,
    0x00, 0x00, 0x00, 0x00, 0xf8, 0xf8, 0x18, 0x18, 0xf8, 0xf8, 0x18, 0x18, 0x18, 0x18, 0x18, 0x18,
    0x66, 0x66, 0x66, 0x66, 0xe6, 0xe6, 0x06, 0x06, 0xe6, 0xe6, 0x66, 0x66, 0x66, 0x66, 0x66, 0x66,
    0x66, 0x66, 0x66, 0x66, 0x66, 0x66, 0x66, 0x66, 0x66, 0x66, 0x66, 0x66, 0x66, 0x66, 0x66, 0x66,
    0x00, 0x00, 0x00, 0x00, 0xfe, 0xfe, 0x06, 0x06, 0xe6, 0xe6, 0x66, 0x66, 0x66, 0x66, 0x66, 0x66,
    0x66, 0x66, 0x66, 0x66, 0xe6, 0xe6, 0x06, 0x06, 0xfe, 0xfe, 0x00, 0x00, 0x00, 0x00, 0x00, 0x00,
    0x66, 0x66, 0x66, 0x66, 0x66, 0x66, 0xfe, 0xfe, 0x00, 0x00, 0x00, 0x00, 0x00, 0x00, 0x00, 0x00,
    0x18, 0x18, 0x18, 0x18, 0xf8, 0xf8, 0x18, 0x18, 0xf8, 0xf8, 0x00, 0x00, 0x00, 0x00, 0x00, 0x00,
    0x00, 0x00, 0x00, 0x00, 0x00, 0x00, 0xf8, 0xf8, 0x18, 0x18, 0x18, 0x18, 0x18, 0x18, 0x18, 0x18,
];

/// Glyph rows of the 8x16 font, 16 bytes per codepoint, part 13 of 16.
pub const FONT_8X16_P12: [u8; 256] = [
    0x18, 0x18, 0x18, 0x18, 0x18, 0x18, 0x1f, 0x1f, 0x00, 0x00, 0x00, 0x00, 0x00, 0x00, 0x00, 0x00,
    0x18, 0x18, 0x18, 0x18, 0x18, 0x18, 0xff, 0xff, 0x00, 0x00, 0x00, 0x00, 0x00, 0x00, 0x00, 0x00,
    0x00, 0x00, 0x00, 0x00, 0x00, 0x00, 0xff, 0xff, 0x18, 0x18, 0x18, 0x18, 0x18, 0x18, 0x18, 0x18,
    0x18, 0x18, 0x18, 0x18, 0x18, 0x18, 0x1f, 0x1f, 0x18, 0x18, 0x18, 0x18, 0x18, 0x18, 0x18, 0x18,
    0x00, 0x00, 0x00, 0x00, 0x00, 0x00, 0xff, 0xff, 0x00, 0x00, 0x00, 0x00, 0x00, 0x00, 0x00, 0x00,
    0x18, 0x18, 0x18, 0x18, 0x18, 0x18, 0xff, 0xff, 0x18, 0x18, 0x18, 0x18, 0x18, 0x18, 0x18, 0x18,
    0x18, 0x18, 0x18, 0x18, 0x1f, 0x1f, 0x18, 0x18, 0x1f, 0x1f, 0x18, 0x18, 0x18, 0x18, 0x18, 0x18,
    0x66, 0x66, 0x66, 0x66, 0x66, 0x66, 0x67, 0x67, 0x66, 0x66, 0x66, 0x66, 0x66, 0x66, 0x66, 0x66,
    0x66, 0x66, 0x66, 0x66, 0x67, 0x67, 0x60, 0x60, 0x7f, 0x7f, 0x00, 0x00, 0x00, 0x00, 0x00, 0x00,
    0x00, 0x00, 0x00, 0x00, 0x7f, 0x7f, 0x60, 0x60, 0x67, 0x67, 0x66, 0x66, 0x66, 0x66, 0x66, 0x66,
    0x66, 0x66, 0x66, 0x66, 0xe7, 0xe7, 0x00, 0x00, 0xff, 0xff, 0x00, 0x00, 0x00, 0x00, 0x00, 0x00,
    0x00, 0x00, 0x00, 0x00, 0xff, 0xff, 0x00, 0x00, 0xe7, 0xe7, 0x66, 0x66, 0x66, 0x66, 0x66, 0x66,
    0x66, 0x66, 0x66, 0x66, 0x67, 0x67, 0x60, 0x60, 0x67, 0x67, 0x66, 0x66, 0x66, 0x66, 0x66, 0x66,
    0x00, 0x00, 0x00, 0x00, 0xff, 0xff, 0x00, 0x00, 0xff, 0xff, 0x00, 0x00, 0x00, 0x00, 0x00, 0x00,
    0x66, 0x66, 0x66, 0x66, 0xe7, 0xe7, 0x00, 0x00, 0xe7, 0xe7, 0x66, 0x66, 0x66, 0x66, 0x66, 0x66,
    0x18, 0x18, 0x18, 0x18, 0xff, 0xff, 0x00, 0x00, 0xff, 0xff, 0x00, 0x00, 0x00, 0x00, 0x00, 0x00,
];

/// Glyph rows of the 8x16 font, 16 bytes per codepoint, part 14 of 16.
pub const FONT_8X16_P13: [u8; 256] = [
    0x66, 0x66, 0x66, 0x66, 0x66, 0x66, 0xff, 0xff, 0x00, 0x00, 0x00, 0x00, 0x00, 0x00, 0x00, 0x00,
    0x00, 0x00, 0x00, 0x00, 0xff, 0xff, 0x00, 0x00, 0xff, 0xff, 0x18, 0x18, 0x18, 0x18, 0x18, 0x18,
    0x00, 0x00, 0x00, 0x00, 0x00, 0x00, 0xff, 0xff, 0x66, 0x66, 0x66, 0x66, 0x66, 0x66, 0x66, 0x66,
    0x66, 0x66, 0x66, 0x66, 0x66, 0x66, 0x7f, 0x7f, 0x00, 0x00, 0x00, 0x00, 0x00, 0x00, 0x00, 0x00,
    0x18, 0x18, 0x18, 0x18, 0x1f, 0x1f, 0x18, 0x18, 0x1f, 0x1f, 0x00, 0x00, 0x00, 0x00, 0x00, 0x00,
    0x00, 0x00, 0x00, 0x00, 0x1f, 0x1f, 0x18, 0x18, 0x1f, 0x1f, 0x18, 0x18, 0x18, 0x18, 0x18, 0x18,
    0x00, 0x00, 0x00, 0x00, 0x00, 0x00, 0x7f, 0x7f, 0x66, 0x66, 0x66, 0x66, 0x66, 0x66, 0x66, 0x66,
    0x66, 0x66, 0x66, 0x66, 0x66, 0x66, 0xff, 0xff, 0x66, 0x66, 0x66, 0x66, 0x66, 0x66, 0x66, 0x66,
    0x18, 0x18, 0x18, 0x18, 0xff, 0xff, 0x18, 0x18, 0xff, 0xff, 0x18, 0x18, 0x18, 0x18, 0x18, 0x18,
    0x18, 0x18, 0x18, 0x18, 0x18, 0x18, 0xf8, 0xf8, 0x00, 0x00, 0x00, 0x00, 0x00, 0x00, 0x00, 0x00,
    0x00, 0x00, 0x00, 0x00, 0x00, 0x00, 0x1f, 0x1f, 0x18, 0x18, 0x18, 0x18, 0x18, 0x18, 0x18, 0x18,
    0xff, 0xff, 0xff, 0xff, 0xff, 0xff, 0xff, 0xff, 0xff, 0xff, 0xff, 0xff, 0xff, 0xff, 0xff, 0xff,
    0x00, 0x00, 0x00, 0x00, 0x00, 0x00, 0x00, 0x00, 0xff, 0xff, 0xff, 0xff, 0xff, 0xff, 0xff, 0xff,
    0xf0, 0xf0, 0xf0, 0xf0, 0xf0, 0xf0, 0xf0, 0xf0, 0xf0, 0xf0, 0xf0, 0xf0, 0xf0, 0xf0, 0xf0, 0xf0,
    0x0f, 0x0f, 0x0f, 0x0f, 0x0f, 0x0f, 0x0f, 0x0f, 0x0f, 0x0f, 0x0f, 0x0f, 0x0f, 0x0f, 0x0f, 0x0f,
    0xff, 0xff, 0xff, 0xff, 0xff, 0xff, 0xff, 0xff, 0x00, 0x00, 0x00, 0x00, 0x00, 0x00, 0x00, 0x00,
];

/// Glyph rows of the 8x16 font, 16 bytes per codepoint, part 15 of 16.
pub const FONT_8X16_P14: [u8; 256] = [
    0x00, 0x00, 0x00, 0x00, 0x76, 0x76, 0xdc, 0xdc, 0xc8, 0xc8, 0xdc, 0xdc, 0x76, 0x76, 0x00, 0x00,
    0x00, 0x00, 0x78, 0x78, 0xcc, 0xcc, 0xf8, 0xf8, 0xcc, 0xcc, 0xf8, 0xf8, 0xc0, 0xc0, 0xc0, 0xc0,
    0x00, 0x00, 0xfc, 0xfc, 0xcc, 0xcc, 0xc0, 0xc0, 0xc0, 0xc0, 0xc0, 0xc0, 0xc0, 0xc0, 0x00, 0x00,
    0x00, 0x00, 0x00, 0x00, 0xfe, 0xfe, 0x6c, 0x6c, 0x6c, 0x6c, 0x6c, 0x6c, 0x6c, 0x6c, 0x00, 0x00,
    0xfc, 0xfc, 0xcc, 0xcc, 0x60, 0x60, 0x30, 0x30, 0x60, 0x60, 0xcc, 0xcc, 0xfc, 0xfc, 0x00, 0x00,
    0x00, 0x00, 0x00, 0x00, 0x7e, 0x7e, 0xd8, 0xd8, 0xd8, 0xd8, 0xd8, 0xd8, 0x70, 0x70, 0x00, 0x00,
    0x00, 0x00, 0x66, 0x66, 0x66, 0x66, 0x66, 0x66, 0x66, 0x66, 0x7c, 0x7c, 0x60, 0x60, 0xc0, 0xc0,
    0x00, 0x00, 0x76, 0x76, 0xdc, 0xdc, 0x18, 0x18, 0x18, 0x18, 0x18, 0x18, 0x18, 0x18, 0x00, 0x00,
    0xfc, 0xfc, 0x30, 0x30, 0x78, 0x78, 0xcc, 0xcc, 0xcc, 0xcc, 0x78, 0x78, 0x30, 0x30, 0xfc, 0xfc,
    0x38, 0x38, 0x6c, 0x6c, 0xc6, 0xc6, 0xfe, 0xfe, 0xc6, 0xc6, 0x6c, 0x6c, 0x38, 0x38, 0x00, 0x00,
    0x38, 0x38, 0x6c, 0x6c, 0xc6, 0xc6, 0xc6, 0xc6, 0x6c, 0x6c, 0x6c, 0x6c, 0xee, 0xee, 0x00, 0x00,
    0x1c, 0x1c, 0x30, 0x30, 0x18, 0x18, 0x7c, 0x7c, 0xcc, 0xcc, 0xcc, 0xcc, 0x78, 0x78, 0x00, 0x00,
    0x00, 0x00, 0x00, 0x00, 0x7e, 0x7e, 0xdb, 0xdb, 0xdb, 0xdb, 0x7e, 0x7e, 0x00, 0x00, 0x00, 0x00,
    0x06, 0x06, 0x0c, 0x0c, 0x7e, 0x7e, 0xdb, 0xdb, 0xdb, 0xdb, 0x7e, 0x7e, 0x60, 0x60, 0xc0, 0xc0,
    0x38, 0x38, 0x60, 0x60, 0xc0, 0xc0, 0xf8, 0xf8, 0xc0, 0xc0, 0x60, 0x60, 0x38, 0x38, 0x00, 0x00,
    0x78, 0x78, 0xcc, 0xcc, 0xcc, 0xcc, 0xcc, 0xcc, 0xcc, 0xcc, 0xcc, 0xcc, 0xcc, 0xcc, 0x00, 0x00,
];

/// Glyph rows of the 8x16 font, 16 bytes per codepoint, part 16 of 16.
pub const FONT_8X16_P15: [u8; 256] = [
    0x00, 0x00, 0xfc, 0xfc, 0x00, 0x00, 0xfc, 0xfc, 0x00, 0x00, 0xfc, 0xfc, 0x00, 0x00, 0x00, 0x00,
    0x30, 0x30, 0x30, 0x30, 0xfc, 0xfc, 0x30, 0x30, 0x30, 0x30, 0x00, 0x00, 0xfc, 0xfc, 0x00, 0x00,
    0x60, 0x60, 0x30, 0x30, 0x18, 0x18, 0x30, 0x30, 0x60, 0x60, 0x00, 0x00, 0xfc, 0xfc, 0x00, 0x00,
    0x18, 0x18, 0x30, 0x30, 0x60, 0x60, 0x30, 0x30, 0x18, 0x18, 0x00, 0x00, 0xfc, 0xfc, 0x00, 0x00,
    0x0e, 0x0e, 0x1b, 0x1b, 0x1b, 0x1b, 0x18, 0x18, 0x18, 0x18, 0x18, 0x18, 0x18, 0x18, 0x18, 0x18,
    0x18, 0x18, 0x18, 0x18, 0x18, 0x18, 0x18, 0x18, 0x18, 0x18, 0xd8, 0xd8, 0xd8, 0xd8, 0x70, 0x70,
    0x30, 0x30, 0x30, 0x30, 0x00, 0x00, 0xfc, 0xfc, 0x00, 0x00, 0x30, 0x30, 0x30, 0x30, 0x00, 0x00,
    0x00, 0x00, 0x76, 0x76, 0xdc, 0xdc, 0x00, 0x00, 0x76, 0x76, 0xdc, 0xdc, 0x00, 0x00, 0x00, 0x00,
    0x38, 0x38, 0x6c, 0x6c, 0x6c, 0x6c, 0x38, 0x38, 0x00, 0x00, 0x00, 0x00, 0x00, 0x00, 0x00, 0x00,
    0x00, 0x00, 0x00, 0x00, 0x00, 0x00, 0x18, 0x18, 0x18, 0x18, 0x00, 0x00, 0x00, 0x00, 0x00, 0x00,
    0x00, 0x00, 0x00, 0x00, 0x00, 0x00, 0x00, 0x00, 0x18, 0x18, 0x00, 0x00, 0x00, 0x00, 0x00, 0x00,
    0x0f, 0x0f, 0x0c, 0x0c, 0x0c, 0x0c, 0x0c, 0x0c, 0xec, 0xec, 0x6c, 0x6c, 0x3c, 0x3c, 0x1c, 0x1c,
    0x78, 0x78, 0x6c, 0x6c, 0x6c, 0x6c, 0x6c, 0x6c, 0x6c, 0x6c, 0x00, 0x00, 0x00, 0x00, 0x00, 0x00,
    0x70, 0x70, 0x18, 0x18, 0x30, 0x30, 0x60, 0x60, 0x78, 0x78, 0x00, 0x00, 0x00, 0x00, 0x00, 0x00,
    0x00, 0x00, 0x00, 0x00, 0x3c, 0x3c, 0x3c, 0x3c, 0x3c, 0x3c, 0x3c, 0x3c, 0x00, 0x00, 0x00, 0x00,
    0x00, 0x00, 0x00, 0x00, 0x00, 0x00, 0x00, 0x00, 0x00, 0x00, 0x00, 0x00, 0x00, 0x00, 0x00, 0x00,
];

/// Glyph rows of the 8x8 font, 8 bytes per codepoint, part 1 of 8.
pub const FONT_8X8_P0: [u8; 256] = [
    0x00, 0x00, 0x00, 0x00, 0x00, 0x00, 0x00, 0x00, 0x7e, 0x81, 0xa5, 0x81, 0xbd, 0x99, 0x81, 0x7e,
    0x7e, 0xff, 0xdb, 0xff, 0xc3, 0xe7, 0xff, 0x7e, 0x6c, 0xfe, 0xfe, 0xfe, 0x7c, 0x38, 0x10, 0x00,
    0x10, 0x38, 0x7c, 0xfe, 0x7c, 0x38, 0x10, 0x00, 0x38, 0x7c, 0x38, 0xfe, 0xfe, 0x7c, 0x38, 0x7c,
    0x10, 0x10, 0x38, 0x7c, 0xfe, 0x7c, 0x38, 0x7c, 0x00, 0x00, 0x18, 0x3c, 0x3c, 0x18, 0x00, 0x00,
    0xff, 0xff, 0xe7, 0xc3, 0xc3, 0xe7, 0xff, 0xff, 0x00, 0x3c, 0x66, 0x42, 0x42, 0x66, 0x3c, 0x00,
    0xff, 0xc3, 0x99, 0xbd, 0xbd, 0x99, 0xc3, 0xff, 0x0f, 0x07, 0x0f, 0x7d, 0xcc, 0xcc, 0xcc, 0x78,
    0x3c, 0x66, 0x66, 0x66, 0x3c, 0x18, 0x7e, 0x18, 0x3f, 0x33, 0x3f, 0x30, 0x30, 0x70, 0xf0, 0xe0,
    0x7f, 0x63, 0x7f, 0x63, 0x63, 0x67, 0xe6, 0xc0, 0x99, 0x5a, 0x3c, 0xe7, 0xe7, 0x3c, 0x5a, 0x99,
    0x80, 0xe0, 0xf8, 0xfe, 0xf8, 0xe0, 0x80, 0x00, 0x02, 0x0e, 0x3e, 0xfe, 0x3e, 0x0e, 0x02, 0x00,
    0x18, 0x3c, 0x7e, 0x18, 0x18, 0x7e, 0x3c, 0x18, 0x66, 0x66, 0x66, 0x66, 0x66, 0x00, 0x66, 0x00,
    0x7f, 0xdb, 0xdb, 0x7b, 0x1b, 0x1b, 0x1b, 0x00, 0x3e, 0x63, 0x38, 0x6c, 0x6c, 0x38, 0xcc, 0x78,
    0x00, 0x00, 0x00, 0x00, 0x7e, 0x7e, 0x7e, 0x00, 0x18, 0x3c, 0x7e, 0x18, 0x7e, 0x3c, 0x18, 0xff,
    0x18, 0x3c, 0x7e, 0x18, 0x18, 0x18, 0x18, 0x00, 0x18, 0x18, 0x18, 0x18, 0x7e, 0x3c, 0x18, 0x00,
    0x00, 0x18, 0x0c, 0xfe, 0x0c, 0x18, 0x00, 0x00, 0x00, 0x30, 0x60, 0xfe, 0x60, 0x30, 0x00, 0x00,
    0x00, 0x00, 0xc0, 0xc0, 0xc0, 0xfe, 0x00, 0x00, 0x00, 0x24, 0x66, 0xff, 0x66, 0x24, 0x00, 0x00,
    0x00, 0x18, 0x3c, 0x7e, 0xff, 0xff, 0x00, 0x00, 0x00, 0xff, 0xff, 0x7e, 0x3c, 0x18, 0x00, 0x00,
];

/// Glyph rows of the 8x8 font, 8 bytes per codepoint, part 2 of 8.
pub const FONT_8X8_P1: [u8; 256] = [
    0x00, 0x00, 0x00, 0x00, 0x00, 0x00, 0x00, 0x00, 0x30, 0x78, 0x78, 0x30, 0x30, 0x00, 0x30, 0x00,
    0x6c, 0x6c, 0x6c, 0x00, 0x00, 0x00, 0x00, 0x00, 0x6c, 0x6c, 0xfe, 0x6c, 0xfe, 0x6c, 0x6c, 0x00,
    0x30, 0x7c, 0xc0, 0x78, 0x0c, 0xf8, 0x30, 0x00, 0x00, 0xc6, 0xcc, 0x18, 0x30, 0x66, 0xc6, 0x00,
    0x38, 0x6c, 0x38, 0x76, 0xdc, 0xcc, 0x76, 0x00, 0x60, 0x60, 0xc0, 0x00, 0x00, 0x00, 0x00, 0x00,
    0x18, 0x30, 0x60, 0x60, 0x60, 0x30, 0x18, 0x00, 0x60, 0x30, 0x18, 0x18, 0x18, 0x30, 0x60, 0x00,
    0x00, 0x66, 0x3c, 0xff, 0x3c, 0x66, 0x00, 0x00, 0x00, 0x30, 0x30, 0xfc, 0x30, 0x30, 0x00, 0x00,
    0x00, 0x00, 0x00, 0x00, 0x00, 0x30, 0x30, 0x60, 0x00, 0x00, 0x00, 0xfc, 0x00, 0x00, 0x00, 0x00,
    0x00, 0x00, 0x00, 0x00, 0x00, 0x30, 0x30, 0x00, 0x06, 0x0c, 0x18, 0x30, 0x60, 0xc0, 0x80, 0x00,
    0x7c, 0xc6, 0xce, 0xde, 0xf6, 0xe6, 0x7c, 0x00, 0x30, 0x70, 0x30, 0x30, 0x30, 0x30, 0xfc, 0x00,
    0x78, 0xcc, 0x0c, 0x38, 0x60, 0xcc, 0xfc, 0x00, 0x78, 0xcc, 0x0c, 0x38, 0x0c, 0xcc, 0x78, 0x00,
    0x1c, 0x3c, 0x6c, 0xcc, 0xfe, 0x0c, 0x1e, 0x00, 0xfc, 0xc0, 0xf8, 0x0c, 0x0c, 0xcc, 0x78, 0x00,
    0x38, 0x60, 0xc0, 0xf8, 0xcc, 0xcc, 0x78, 0x00, 0xfc, 0xcc, 0x0c, 0x18, 0x30, 0x30, 0x30, 0x00,
    0x78, 0xcc, 0xcc, 0x78, 0xcc, 0xcc, 0x78, 0x00, 0x78, 0xcc, 0xcc, 0x7c, 0x0c, 0x18, 0x70, 0x00,
    0x00, 0x30, 0x30, 0x00, 0x00, 0x30, 0x30, 0x00, 0x00, 0x30, 0x30, 0x00, 0x00, 0x30, 0x30, 0x60,
    0x18, 0x30, 0x60, 0xc0, 0x60, 0x30, 0x18, 0x00, 0x00, 0x00, 0xfc, 0x00, 0x00, 0xfc, 0x00, 0x00,
    0x60, 0x30, 0x18, 0x0c, 0x18, 0x30, 0x60, 0x00, 0x78, 0xcc, 0x0c, 0x18, 0x30, 0x00, 0x30, 0x00,
];

/// Glyph rows of the 8x8 font, 8 bytes per codepoint, part 3 of 8.
pub const FONT_8X8_P2: [u8; 256] = [
    0x7c, 0xc6, 0xde, 0xde, 0xde, 0xc0, 0x78, 0x00, 0x30, 0x78, 0xcc, 0xcc, 0xfc, 0xcc, 0xcc, 0x00,
    0xfc, 0x66, 0x66, 0x7c, 0x66, 0x66, 0xfc, 0x00, 0x3c, 0x66, 0xc0, 0xc0, 0xc0, 0x66, 0x3c, 0x00,
    0xf8, 0x6c, 0x66, 0x66, 0x66, 0x6c, 0xf8, 0x00, 0xfe, 0x62, 0x68, 0x78, 0x68, 0x62, 0xfe, 0x00,
    0xfe, 0x62, 0x68, 0x78, 0x68, 0x60, 0xf0, 0x00, 0x3c, 0x66, 0xc0, 0xc0, 0xce, 0x66, 0x3e, 0x00,
    0xcc, 0xcc, 0xcc, 0xfc, 0xcc, 0xcc, 0xcc, 0x00, 0x78, 0x30, 0x30, 0x30, 0x30, 0x30, 0x78, 0x00,
    0x1e, 0x0c, 0x0c, 0x0c, 0xcc, 0xcc, 0x78, 0x00, 0xe6, 0x66, 0x6c, 0x78, 0x6c, 0x66, 0xe6, 0x00,
    0xf0, 0x60, 0x60, 0x60, 0x62, 0x66, 0xfe, 0x00, 0xc6, 0xee, 0xfe, 0xfe, 0xd6, 0xc6, 0xc6, 0x00,
    0xc6, 0xe6, 0xf6, 0xde, 0xce, 0xc6, 0xc6, 0x00, 0x38, 0x6c, 0xc6, 0xc6, 0xc6, 0x6c, 0x38, 0x00,
    0xfc, 0x66, 0x66, 0x7c, 0x60, 0x60, 0xf0, 0x00, 0x78, 0xcc, 0xcc, 0xcc, 0xdc, 0x78, 0x1c, 0x00,
    0xfc, 0x66, 0x66, 0x7c, 0x6c, 0x66, 0xe6, 0x00, 0x78, 0xcc, 0xe0, 0x70, 0x1c, 0xcc, 0x78, 0x00,
    0xfc, 0xb4, 0x30, 0x30, 0x30, 0x30, 0x78, 0x00, 0xcc, 0xcc, 0xcc, 0xcc, 0xcc, 0xcc, 0xfc, 0x00,
    0xcc, 0xcc, 0xcc, 0xcc, 0xcc, 0x78, 0x30, 0x00, 0xc6, 0xc6, 0xc6, 0xd6, 0xfe, 0xee, 0xc6, 0x00,
    0xc6, 0xc6, 0x6c, 0x38, 0x38, 0x6c, 0xc6, 0x00, 0xcc, 0xcc, 0xcc, 0x78, 0x30, 0x30, 0x78, 0x00,
    0xfe, 0xc6, 0x8c, 0x18, 0x32, 0x66, 0xfe, 0x00, 0x78, 0x60, 0x60, 0x60, 0x60, 0x60, 0x78, 0x00,
    0xc0, 0x60, 0x30, 0x18, 0x0c, 0x06, 0x02, 0x00, 0x78, 0x18, 0x18, 0x18, 0x18, 0x18, 0x78, 0x00,
    0x10, 0x38, 0x6c, 0xc6, 0x00, 0x00, 0x00, 0x00, 0x00, 0x00, 0x00, 0x00, 0x00, 0x00, 0x00, 0xff,
];

/// Glyph rows of the 8x8 font, 8 bytes per codepoint, part 4 of 8.
pub const FONT_8X8_P3: [u8; 256] = [
    0x30, 0x30, 0x18, 0x00, 0x00, 0x00, 0x00, 0x00, 0x00, 0x00, 0x78, 0x0c, 0x7c, 0xcc, 0x76, 0x00,
    0xe0, 0x60, 0x60, 0x7c, 0x66, 0x66, 0xdc, 0x00, 0x00, 0x00, 0x78, 0xcc, 0xc0, 0xcc, 0x78, 0x00,
    0x1c, 0x0c, 0x0c, 0x7c, 0xcc, 0xcc, 0x76, 0x00, 0x00, 0x00, 0x78, 0xcc, 0xfc, 0xc0, 0x78, 0x00,
    0x38, 0x6c, 0x60, 0xf0, 0x60, 0x60, 0xf0, 0x00, 0x00, 0x00, 0x76, 0xcc, 0xcc, 0x7c, 0x0c, 0xf8,
    0xe0, 0x60, 0x6c, 0x76, 0x66, 0x66, 0xe6, 0x00, 0x30, 0x00, 0x70, 0x30, 0x30, 0x30, 0x78, 0x00,
    0x0c, 0x00, 0x0c, 0x0c, 0x0c, 0xcc, 0xcc, 0x78, 0xe0, 0x60, 0x66, 0x6c, 0x78, 0x6c, 0xe6, 0x00,
    0x70, 0x30, 0x30, 0x30, 0x30, 0x30, 0x78, 0x00, 0x00, 0x00, 0xcc, 0xfe, 0xfe, 0xd6, 0xc6, 0x00,
    0x00, 0x00, 0xf8, 0xcc, 0xcc, 0xcc, 0xcc, 0x00, 0x00, 0x00, 0x78, 0xcc, 0xcc, 0xcc, 0x78, 0x00,
    0x00, 0x00, 0xdc, 0x66, 0x66, 0x7c, 0x60, 0xf0, 0x00, 0x00, 0x76, 0xcc, 0xcc, 0x7c, 0x0c, 0x1e,
    0x00, 0x00, 0xdc, 0x76, 0x66, 0x60, 0xf0, 0x00, 0x00, 0x00, 0x7c, 0xc0, 0x78, 0x0c, 0xf8, 0x00,
    0x10, 0x30, 0x7c, 0x30, 0x30, 0x34, 0x18, 0x00, 0x00, 0x00, 0xcc, 0xcc, 0xcc, 0xcc, 0x76, 0x00,
    0x00, 0x00, 0xcc, 0xcc, 0xcc, 0x78, 0x30, 0x00, 0x00, 0x00, 0xc6, 0xd6, 0xfe, 0xfe, 0x6c, 0x00,
    0x00, 0x00, 0xc6, 0x6c, 0x38, 0x6c, 0xc6, 0x00, 0x00, 0x00, 0xcc, 0xcc, 0xcc, 0x7c, 0x0c, 0xf8,
    0x00, 0x00, 0xfc, 0x98, 0x30, 0x64, 0xfc, 0x00, 0x1c, 0x30, 0x30, 0xe0, 0x30, 0x30, 0x1c, 0x00,
    0x18, 0x18, 0x18, 0x00, 0x18, 0x18, 0x18, 0x00, 0xe0, 0x30, 0x30, 0x1c, 0x30, 0x30, 0xe0, 0x00,
    0x76, 0xdc, 0x00, 0x00, 0x00, 0x00, 0x00, 0x00, 0x00, 0x10, 0x38, 0x6c, 0xc6, 0xc6, 0xfe, 0x00,
];

/// Glyph rows of the 8x8 font, 8 bytes per codepoint, part 5 of 8.
pub const FONT_8X8_P4: [u8; 256] = [
    0x78, 0xcc, 0xc0, 0xcc, 0x78, 0x18, 0x0c, 0x78, 0x00, 0xcc, 0x00, 0xcc, 0xcc, 0xcc, 0x7e, 0x00,
    0x1c, 0x00, 0x78, 0xcc, 0xfc, 0xc0, 0x78, 0x00, 0x7e, 0xc3, 0x3c, 0x06, 0x3e, 0x66, 0x3f, 0x00,
    0xcc, 0x00, 0x78, 0x0c, 0x7c, 0xcc, 0x7e, 0x00, 0xe0, 0x00, 0x78, 0x0c, 0x7c, 0xcc, 0x7e, 0x00,
    0x30, 0x30, 0x78, 0x0c, 0x7c, 0xcc, 0x7e, 0x00, 0x00, 0x00, 0x78, 0xc0, 0xc0, 0x78, 0x0c, 0x38,
    0x7e, 0xc3, 0x3c, 0x66, 0x7e, 0x60, 0x3c, 0x00, 0xcc, 0x00, 0x78, 0xcc, 0xfc, 0xc0, 0x78, 0x00,
    0xe0, 0x00, 0x78, 0xcc, 0xfc, 0xc0, 0x78, 0x00, 0xcc, 0x00, 0x70, 0x30, 0x30, 0x30, 0x78, 0x00,
    0x7c, 0xc6, 0x38, 0x18, 0x18, 0x18, 0x3c, 0x00, 0xe0, 0x00, 0x70, 0x30, 0x30, 0x30, 0x78, 0x00,
    0xc6, 0x38, 0x6c, 0xc6, 0xfe, 0xc6, 0xc6, 0x00, 0x30, 0x30, 0x00, 0x78, 0xcc, 0xfc, 0xcc, 0x00,
    0x1c, 0x00, 0xfc, 0x60, 0x78, 0x60, 0xfc, 0x00, 0x00, 0x00, 0x7f, 0x0c, 0x7f, 0xcc, 0x7f, 0x00,
    0x3e, 0x6c, 0xcc, 0xfe, 0xcc, 0xcc, 0xce, 0x00, 0x78, 0xcc, 0x00, 0x78, 0xcc, 0xcc, 0x78, 0x00,
    0x00, 0xcc, 0x00, 0x78, 0xcc, 0xcc, 0x78, 0x00, 0x00, 0xe0, 0x00, 0x78, 0xcc, 0xcc, 0x78, 0x00,
    0x78, 0xcc, 0x00, 0xcc, 0xcc, 0xcc, 0x7e, 0x00, 0x00, 0xe0, 0x00, 0xcc, 0xcc, 0xcc, 0x7e, 0x00,
    0x00, 0xcc, 0x00, 0xcc, 0xcc, 0x7c, 0x0c, 0xf8, 0xc3, 0x18, 0x3c, 0x66, 0x66, 0x3c, 0x18, 0x00,
    0xcc, 0x00, 0xcc, 0xcc, 0xcc, 0xcc, 0x78, 0x00, 0x18, 0x18, 0x7e, 0xc0, 0xc0, 0x7e, 0x18, 0x18,
    0x38, 0x6c, 0x64, 0xf0, 0x60, 0xe6, 0xfc, 0x00, 0xcc, 0xcc, 0x78, 0xfc, 0x30, 0xfc, 0x30, 0x30,
    0xf8, 0xcc, 0xcc, 0xfa, 0xc6, 0xcf, 0xc6, 0xc7, 0x0e, 0x1b, 0x18, 0x3c, 0x18, 0x18, 0xd8, 0x70,
];

/// Glyph rows of the 8x8 font, 8 bytes per codepoint, part 6 of 8.
pub const FONT_8X8_P5: [u8; 256] = [
    0x1c, 0x00, 0x78, 0x0c, 0x7c, 0xcc, 0x7e, 0x00, 0x38, 0x00, 0x70, 0x30, 0x30, 0x30, 0x78, 0x00,
    0x00, 0x1c, 0x00, 0x78, 0xcc, 0xcc, 0x78, 0x00, 0x00, 0x1c, 0x00, 0xcc, 0xcc, 0xcc, 0x7e, 0x00,
    0x00, 0xf8, 0x00, 0xf8, 0xcc, 0xcc, 0xcc, 0x00, 0xfc, 0x00, 0xcc, 0xec, 0xfc, 0xdc, 0xcc, 0x00,
    0x3c, 0x6c, 0x6c, 0x3e, 0x00, 0x7e, 0x00, 0x00, 0x38, 0x6c, 0x6c, 0x38, 0x00, 0x7c, 0x00, 0x00,
    0x30, 0x00, 0x30, 0x60, 0xc0, 0xcc, 0x78, 0x00, 0x00, 0x00, 0x00, 0xfc, 0xc0, 0xc0, 0x00, 0x00,
    0x00, 0x00, 0x00, 0xfc, 0x0c, 0x0c, 0x00, 0x00, 0xc3, 0xc6, 0xcc, 0xde, 0x33, 0x66, 0xcc, 0x0f,
    0xc3, 0xc6, 0xcc, 0xdb, 0x37, 0x6f, 0xcf, 0x03, 0x18, 0x18, 0x00, 0x18, 0x18, 0x18, 0x18, 0x00,
    0x00, 0x33, 0x66, 0xcc, 0x66, 0x33, 0x00, 0x00, 0x00, 0xcc, 0x66, 0x33, 0x66, 0xcc, 0x00, 0x00,
    0x88, 0x22, 0x88, 0x22, 0x88, 0x22, 0x88, 0x22, 0xaa, 0x55, 0xaa, 0x55, 0xaa, 0x55, 0xaa, 0x55,
    0xdd, 0x77, 0xdd, 0x77, 0xdd, 0x77, 0xdd, 0x77, 0x18, 0x18, 0x18, 0x18, 0x18, 0x18, 0x18, 0x18,
    0x18, 0x18, 0x18, 0xf8, 0x18, 0x18, 0x18, 0x18, 0x18, 0x18, 0xf8, 0x18, 0xf8, 0x18, 0x18, 0x18,
    0x66, 0x66, 0x66, 0xe6, 0x66, 0x66, 0x66, 0x66, 0x00, 0x00, 0x00, 0xfe, 0x66, 0x66, 0x66, 0x66,
    0x00, 0x00, 0xf8, 0x18, 0xf8, 0x18, 0x18, 0x18, 0x66, 0x66, 0xe6, 0x06, 0xe6, 0x66, 0x66, 0x66,
    0x66, 0x66, 0x66, 0x66, 0x66, 0x66, 0x66, 0x66, 0x00, 0x00, 0xfe, 0x06, 0xe6, 0x66, 0x66, 0x66,
    0x66, 0x66, 0xe6, 0x06, 0xfe, 0x00, 0x00, 0x00, 0x66, 0x66, 0x66, 0xfe, 0x00, 0x00, 0x00, 0x00,
    0x18, 0x18, 0xf8, 0x18, 0xf8, 0x00, 0x00, 0x00, 0x00, 0x00, 0x00, 0xf8, 0x18, 0x18, 0x18, 0x18,
];

/// Glyph rows of the 8x8 font, 8 bytes per codepoint, part 7 of 8.
pub const FONT_8X8_P6: [u8; 256] = [
    0x18, 0x18, 0x18, 0x1f, 0x00, 0x00, 0x00, 0x00, 0x18, 0x18, 0x18, 0xff, 0x00, 0x00, 0x00, 0x00,
    0x00, 0x00, 0x00, 0xff, 0x18, 0x18, 0x18, 0x18, 0x18, 0x18, 0x18, 0x1f, 0x18, 0x18, 0x18, 0x18,
    0x00, 0x00, 0x00, 0xff, 0x00, 0x00, 0x00, 0x00, 0x18, 0x18, 0x18, 0xff, 0x18, 0x18, 0x18, 0x18,
    0x18, 0x18, 0x1f, 0x18, 0x1f, 0x18, 0x18, 0x18, 0x66, 0x66, 0x66, 0x67, 0x66, 0x66, 0x66, 0x66,
    0x66, 0x66, 0x67, 0x60, 0x7f, 0x00, 0x00, 0x00, 0x00, 0x00, 0x7f, 0x60, 0x67, 0x66, 0x66, 0x66,
    0x66, 0x66, 0xe7, 0x00, 0xff, 0x00, 0x00, 0x00, 0x00, 0x00, 0xff, 0x00, 0xe7, 0x66, 0x66, 0x66,
    0x66, 0x66, 0x67, 0x60, 0x67, 0x66, 0x66, 0x66, 0x00, 0x00, 0xff, 0x00, 0xff, 0x00, 0x00, 0x00,
    0x66, 0x66, 0xe7, 0x00, 0xe7, 0x66, 0x66, 0x66, 0x18, 0x18, 0xff, 0x00, 0xff, 0x00, 0x00, 0x00,
    0x66, 0x66, 0x66, 0xff, 0x00, 0x00, 0x00, 0x00, 0x00, 0x00, 0xff, 0x00, 0xff, 0x18, 0x18, 0x18,
    0x00, 0x00, 0x00, 0xff, 0x66, 0x66, 0x66, 0x66, 0x66, 0x66, 0x66, 0x7f, 0x00, 0x00, 0x00, 0x00,
    0x18, 0x18, 0x1f, 0x18, 0x1f, 0x00, 0x00, 0x00, 0x00, 0x00, 0x1f, 0x18, 0x1f, 0x18, 0x18, 0x18,
    0x00, 0x00, 0x00, 0x7f, 0x66, 0x66, 0x66, 0x66, 0x66, 0x66, 0x66, 0xff, 0x66, 0x66, 0x66, 0x66,
    0x18, 0x18, 0xff, 0x18, 0xff, 0x18, 0x18, 0x18, 0x18, 0x18, 0x18, 0xf8, 0x00, 0x00, 0x00, 0x00,
    0x00, 0x00, 0x00, 0x1f, 0x18, 0x18, 0x18, 0x18, 0xff, 0xff, 0xff, 0xff, 0xff, 0xff, 0xff, 0xff,
    0x00, 0x00, 0x00, 0x00, 0xff, 0xff, 0xff, 0xff, 0xf0, 0xf0, 0xf0, 0xf0, 0xf0, 0xf0, 0xf0, 0xf0,
    0x0f, 0x0f, 0x0f, 0x0f, 0x0f, 0x0f, 0x0f, 0x0f, 0xff, 0xff, 0xff, 0xff, 0x00, 0x00, 0x00, 0x00,
];

/// Glyph rows of the 8x8 font, 8 bytes per codepoint, part 8 of 8.
pub const FONT_8X8_P7: [u8; 256] = [
    0x00, 0x00, 0x76, 0xdc, 0xc8, 0xdc, 0x76, 0x00, 0x00, 0x78, 0xcc, 0xf8, 0xcc, 0xf8, 0xc0, 0xc0,
    0x00, 0xfc, 0xcc, 0xc0, 0xc0, 0xc0, 0xc0, 0x00, 0x00, 0x00, 0xfe, 0x6c, 0x6c, 0x6c, 0x6c, 0x00,
    0xfc, 0xcc, 0x60, 0x30, 0x60, 0xcc, 0xfc, 0x00, 0x00, 0x00, 0x7e, 0xd8, 0xd8, 0xd8, 0x70, 0x00,
    0x00, 0x66, 0x66, 0x66, 0x66, 0x7c, 0x60, 0xc0, 0x00, 0x76, 0xdc, 0x18, 0x18, 0x18, 0x18, 0x00,
    0xfc, 0x30, 0x78, 0xcc, 0xcc, 0x78, 0x30, 0xfc, 0x38, 0x6c, 0xc6, 0xfe, 0xc6, 0x6c, 0x38, 0x00,
    0x38, 0x6c, 0xc6, 0xc6, 0x6c, 0x6c, 0xee, 0x00, 0x1c, 0x30, 0x18, 0x7c, 0xcc, 0xcc, 0x78, 0x00,
    0x00, 0x00, 0x7e, 0xdb, 0xdb, 0x7e, 0x00, 0x00, 0x06, 0x0c, 0x7e, 0xdb, 0xdb, 0x7e, 0x60, 0xc0,
    0x38, 0x60, 0xc0, 0xf8, 0xc0, 0x60, 0x38, 0x00, 0x78, 0xcc, 0xcc, 0xcc, 0xcc, 0xcc, 0xcc, 0x00,
    0x00, 0xfc, 0x00, 0xfc, 0x00, 0xfc, 0x00, 0x00, 0x30, 0x30, 0xfc, 0x30, 0x30, 0x00, 0xfc, 0x00,
    0x60, 0x30, 0x18, 0x30, 0x60, 0x00, 0xfc, 0x00, 0x18, 0x30, 0x60, 0x30, 0x18, 0x00, 0xfc, 0x00,
    0x0e, 0x1b, 0x1b, 0x18, 0x18, 0x18, 0x18, 0x18, 0x18, 0x18, 0x18, 0x18, 0x18, 0xd8, 0xd8, 0x70,
    0x30, 0x30, 0x00, 0xfc, 0x00, 0x30, 0x30, 0x00, 0x00, 0x76, 0xdc, 0x00, 0x76, 0xdc, 0x00, 0x00,
    0x38, 0x6c, 0x6c, 0x38, 0x00, 0x00, 0x00, 0x00, 0x00, 0x00, 0x00, 0x18, 0x18, 0x00, 0x00, 0x00,
    0x00, 0x00, 0x00, 0x00, 0x18, 0x00, 0x00, 0x00, 0x0f, 0x0c, 0x0c, 0x0c, 0xec, 0x6c, 0x3c, 0x1c,
    0x78, 0x6c, 0x6c, 0x6c, 0x6c, 0x00, 0x00, 0x00, 0x70, 0x18, 0x30, 0x60, 0x78, 0x00, 0x00, 0x00,
    0x00, 0x00, 0x3c, 0x3c, 0x3c, 0x3c, 0x00, 0x00, 0x00, 0x00, 0x00, 0x00, 0x00, 0x00, 0x00, 0x00,
];

} // verus!
