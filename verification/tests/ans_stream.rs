use ansart::ans::convert_blocks_to_ans;
use ansart::blocks::{convert_image, Block};
use ansart::font::Font;
use ansart::raster::PixelImage;

fn one_block() -> Block {
    Block {
        fg: [255, 0, 0, 255],
        bg: None,
        cga_fg: 4,
        cga_bg: None,
        codepoint: 219,
        column: 0,
        row: 0,
    }
}

#[test]
fn ans_stream_single_block_cga() {
    let font = Font::ibm_vga();
    let blocks = vec![one_block()];
    let out = convert_blocks_to_ans(&blocks, &font, 1, false);
    // body: ESC [0;34m then the codepoint byte
    let body: &[u8] = b"\x1b[0;34m\xdb";
    assert_eq!(&out[..body.len()], body);
    assert_eq!(out.len(), body.len() + 129);
    let sauce = &out[body.len()..];
    assert_eq!(sauce[0], 0x1a);
    assert_eq!(&sauce[1..8], b"SAUCE00");
    assert_eq!(&sauce[91..95], &(body.len() as u32).to_le_bytes());
    assert_eq!(&sauce[97..99], &1u16.to_le_bytes());
    assert_eq!(&sauce[99..101], &1u16.to_le_bytes());
    assert_eq!(&sauce[107..114], b"IBM VGA");
    assert!(sauce[114..129].iter().all(|b| *b == 0));
}

#[test]
fn ans_stream_truecolor_and_bright_background() {
    let font = Font::vga50();
    let mut b = one_block();
    b.fg = [1, 22, 255, 255];
    b.bg = Some([0, 0, 0, 255]);
    b.cga_fg = 12;
    b.cga_bg = Some(9);
    b.codepoint = 177;
    let out = convert_blocks_to_ans(&vec![b], &font, 1, true);
    let body: &[u8] = b"\x1b[0;5;41;1;34m\x1b[0;0;0;0t\x1b[1;1;22;255t\xb1";
    assert_eq!(&out[..body.len()], body);
    assert_eq!(&out[body.len() + 107..body.len() + 116], b"IBM VGA50");
}

#[test]
fn ans_stream_row_count_in_sauce() {
    let font = Font::ibm_vga();
    let img = PixelImage {
        width: 160,
        height: 100,
        pixels: vec![128; 160 * 100 * 4],
    };
    let blocks = convert_image(&img, &font, 20, false).unwrap();
    let out = convert_blocks_to_ans(&blocks, &font, 20, false);
    let sauce = &out[out.len() - 129..];
    assert_eq!(&sauce[97..99], &20u16.to_le_bytes());
    assert_eq!(&sauce[99..101], &7u16.to_le_bytes());
}
