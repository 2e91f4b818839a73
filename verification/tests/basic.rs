use ansart::blocks::{convert_blocks_to_image, convert_image};
use ansart::cga::{find_closest_cga_color, get_cga_color};
use ansart::font::{Font, FontType};
use ansart::raster::PixelImage;

fn solid_image(width: u32, height: u32, color: [u8; 4]) -> PixelImage {
    let mut pixels = Vec::new();
    for _ in 0..(width * height) {
        pixels.extend_from_slice(&color);
    }
    PixelImage { width, height, pixels }
}

#[test]
fn font_bit_array_full_block() {
    let font = Font::ibm_vga();
    assert_eq!(font.width, 8);
    assert_eq!(font.height, 16);
    let bits = font.bits_for_codepoint(219);
    assert_eq!(bits.len(), 128);
    assert!(bits.iter().all(|b| *b == 1));
    let space = font.bits_for_codepoint(32);
    assert_eq!(space.len(), 128);
    assert!(space.iter().all(|b| *b == 0));
}

#[test]
fn font_bit_array_small() {
    let font = Font::vga50();
    assert_eq!(font.height, 8);
    let bits = font.bits_for_codepoint(219);
    assert_eq!(bits.len(), 64);
    assert!(bits.iter().all(|b| *b == 1));
}

#[test]
fn with_bytes_unpacks_msb_first() {
    let mut bytes = vec![0u8; 2048];
    bytes[0] = 0b1010_0001;
    let font = Font::with_bytes(bytes, FontType::VGA50Type);
    let bits = font.bits_for_codepoint(0);
    assert_eq!(&bits[0..8], &[1, 0, 1, 0, 0, 0, 0, 1]);
}

#[test]
fn cga_palette_roundtrip() {
    for i in 0..16u8 {
        assert_eq!(find_closest_cga_color(get_cga_color(i)), i);
    }
}

#[test]
fn cga_nearest_idempotent_samples() {
    for c in [
        [255u8, 0, 0, 255],
        [0, 255, 0, 255],
        [13, 77, 200, 255],
        [250, 250, 240, 255],
        [120, 60, 20, 255],
    ] {
        let i = find_closest_cga_color(c);
        assert_eq!(find_closest_cga_color(get_cga_color(i)), i);
    }
}

#[test]
fn rows_follow_ceiling_formula() {
    let img = solid_image(160, 100, [10, 20, 30, 255]);
    assert_eq!(img.calculate_rows(20, 8, 16), 7);
    let font = Font::ibm_vga();
    let blocks = convert_image(&img, &font, 20, false).unwrap();
    assert_eq!(blocks.len(), 140);
    for (k, b) in blocks.iter().enumerate() {
        assert_eq!(b.column as usize, k % 20);
        assert_eq!(b.row as usize, k / 20);
        assert!(![9u8, 10, 13, 26, 27].contains(&b.codepoint));
        if b.bg.is_none() {
            assert_eq!(b.codepoint, 219);
            assert!(b.cga_bg.is_none());
        }
    }
}

#[test]
fn single_red_pixel() {
    let img = solid_image(1, 1, [255, 0, 0, 255]);
    let font = Font::ibm_vga();
    let blocks = convert_image(&img, &font, 1, false).unwrap();
    assert_eq!(blocks.len(), 1);
    let b = &blocks[0];
    assert_eq!(b.fg, [255, 0, 0, 255]);
    assert!(b.bg.is_none());
    assert_eq!(b.codepoint, 219);
    assert_eq!(b.cga_fg, 12);
    assert!(b.cga_bg.is_none());
    assert_eq!(b.column, 0);
    assert_eq!(b.row, 0);
}

#[test]
fn black_image_two_columns() {
    let img = solid_image(16, 16, [0, 0, 0, 255]);
    let font = Font::ibm_vga();
    let blocks = convert_image(&img, &font, 2, false).unwrap();
    assert_eq!(blocks.len(), 2);
    for b in &blocks {
        assert_eq!(b.fg, [0, 0, 0, 255]);
        assert!(b.bg.is_none());
        assert_eq!(b.codepoint, 219);
    }
}

fn split_image() -> PixelImage {
    let mut pixels = Vec::new();
    for _y in 0..16 {
        for x in 0..16 {
            if x < 8 {
                pixels.extend_from_slice(&[255, 255, 255, 255]);
            } else {
                pixels.extend_from_slice(&[0, 0, 0, 255]);
            }
        }
    }
    PixelImage { width: 16, height: 16, pixels }
}

#[test]
fn split_image_two_columns() {
    let font = Font::ibm_vga();
    let blocks = convert_image(&split_image(), &font, 2, false).unwrap();
    assert_eq!(blocks.len(), 2);
    assert_eq!(blocks[0].fg, [255, 255, 255, 255]);
    assert!(blocks[0].bg.is_none());
    assert_eq!(blocks[0].codepoint, 219);
    assert_eq!(blocks[1].fg, [0, 0, 0, 255]);
    assert!(blocks[1].bg.is_none());
    assert_eq!(blocks[1].codepoint, 219);
}

#[test]
fn split_image_one_column_picks_half_block() {
    let font = Font::ibm_vga();
    let blocks = convert_image(&split_image(), &font, 1, false).unwrap();
    assert_eq!(blocks.len(), 1);
    let b = &blocks[0];
    assert!(b.bg.is_some());
    assert!(b.codepoint == 221 || b.codepoint == 222);
}

fn checkerboard() -> PixelImage {
    let mut pixels = Vec::new();
    for y in 0..16 {
        for x in 0..8 {
            if (x + y) % 2 == 0 {
                pixels.extend_from_slice(&[255, 255, 255, 255]);
            } else {
                pixels.extend_from_slice(&[0, 0, 0, 255]);
            }
        }
    }
    PixelImage { width: 8, height: 16, pixels }
}

#[test]
fn checkerboard_picks_shade_glyph() {
    let font = Font::ibm_vga();
    let blocks = convert_image(&checkerboard(), &font, 1, false).unwrap();
    assert_eq!(blocks.len(), 1);
    let b = &blocks[0];
    assert!([176u8, 177, 178].contains(&b.codepoint));
    let bg = b.bg.unwrap();
    let mut colors = [b.fg, bg];
    colors.sort();
    assert_eq!(colors, [[0, 0, 0, 255], [255, 255, 255, 255]]);
}

#[test]
fn restricted_matching_stays_in_block_set() {
    let font = Font::ibm_vga();
    let allowed = [32u8, 176, 177, 178, 219, 220, 221, 222, 223];
    for img in [checkerboard(), split_image()] {
        let blocks = convert_image(&img, &font, 1, true).unwrap();
        for b in &blocks {
            assert!(allowed.contains(&b.codepoint));
        }
    }
}

#[test]
fn render_roundtrip_reproduces_blocks() {
    let font = Font::ibm_vga();
    let blocks = convert_image(&split_image(), &font, 2, false).unwrap();
    let rendered = convert_blocks_to_image(&blocks, &font, 2, true);
    assert_eq!(rendered.width, 16);
    assert_eq!(rendered.height, 16);
    let again = convert_image(&rendered, &font, 2, false).unwrap();
    assert_eq!(again.len(), blocks.len());
    for (a, b) in blocks.iter().zip(again.iter()) {
        assert_eq!(a.fg, b.fg);
        assert_eq!(a.bg, b.bg);
        assert_eq!(a.cga_fg, b.cga_fg);
        assert_eq!(a.cga_bg, b.cga_bg);
        assert_eq!(a.codepoint, b.codepoint);
        assert_eq!(a.column, b.column);
        assert_eq!(a.row, b.row);
    }
}

#[test]
fn uniform_render_matches_color() {
    let font = Font::ibm_vga();
    let img = solid_image(8, 16, [10, 200, 30, 255]);
    let blocks = convert_image(&img, &font, 1, false).unwrap();
    let rendered = convert_blocks_to_image(&blocks, &font, 1, true);
    assert_eq!(rendered.pixels.len(), 8 * 16 * 4);
    for p in rendered.pixels.chunks(4) {
        assert_eq!(p, &[10, 200, 30, 255]);
    }
}
