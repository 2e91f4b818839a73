//! CP437 bitmap fonts: construction from raw glyph bytes, per-codepoint bit
//! access, rendering a codepoint to a pixel tile, drawing it into a raster,
//! and the glyph-matching search at the heart of the conversion.

use vstd::prelude::*;
use crate::raster::{PixelImage, in_tile_rect, tile_src_index, drawn_upto, lemma_pixel_byte_range};

verus! {

/// Identifies which built-in font a table holds; the matching name is
/// recorded in the SAUCE trailer.
#[derive(Clone, Copy, PartialEq, Eq, Structural, Debug)]
pub enum FontType {
    IBMVGAType,
    VGA50Type,
}

/// The SAUCE font name of a variant, as ASCII bytes.
pub open spec fn font_name_spec(t: FontType) -> Seq<u8> {
    match t {
        FontType::IBMVGAType => seq![73u8, 66u8, 77u8, 32u8, 86u8, 71u8, 65u8],
        FontType::VGA50Type => seq![73u8, 66u8, 77u8, 32u8, 86u8, 71u8, 65u8, 53u8, 48u8],
    }
}

/// A codepoint rendered to pixels: a `width` x `height` tile of RGBA bytes,
/// four per pixel, rows top to bottom.
pub struct Codepoint {
    pub width: u32,
    pub height: u32,
    pub bytes: Vec<u8>,
}

/// A bitmap font: 256 glyphs of `width` x `height` cells.  The bit for
/// column `c` of row `r` of codepoint `p` sits at `p * size + r * width + c`
/// of `bitmask`, stored as a full byte that is 0 or 1.
pub struct Font {
    pub width: u32,
    pub height: u32,
    pub size: u32,
    pub bitmask: Vec<u8>,
    pub font_type: FontType,
}

/// The bit of `byte` at position `j`, most significant bit first.
pub open spec fn byte_bit(byte: u8, j: int) -> u8 {
    if (byte >> ((7 - j) as u8)) & 1 == 1 {
        1u8
    } else {
        0u8
    }
}

/// The `i`-th element of the bit array unpacked from `bytes`, one byte per
/// glyph row, most significant bit leftmost.
pub open spec fn bit_expand(bytes: Seq<u8>, i: int) -> u8 {
    byte_bit(bytes[i / 8], i % 8)
}

/// The `k`-th byte of the RGBA tile that renders codepoint `cp` with
/// foreground `fg` and background `bg` (opaque black when absent).
pub open spec fn render_byte(font: &Font, cp: u8, fg: [u8; 4], bg: Option<[u8; 4]>, k: int) -> u8 {
    let p = k / 4;
    let c = k % 4;
    if font.glyph_bit(cp as int, p) == 1 {
        fg@[c]
    } else {
        match bg {
            Option::Some(b) => b@[c],
            Option::None => if c == 3 { 255u8 } else { 0u8 },
        }
    }
}

/// The raw glyph rows of the built-in 8x16 font, in codepoint order.
pub open spec fn font_16_bytes() -> Seq<u8> {
    crate::fontdata::FONT_8X16_P0@ + crate::fontdata::FONT_8X16_P1@
        + crate::fontdata::FONT_8X16_P2@ + crate::fontdata::FONT_8X16_P3@
        + crate::fontdata::FONT_8X16_P4@ + crate::fontdata::FONT_8X16_P5@
        + crate::fontdata::FONT_8X16_P6@ + crate::fontdata::FONT_8X16_P7@
        + crate::fontdata::FONT_8X16_P8@ + crate::fontdata::FONT_8X16_P9@
        + crate::fontdata::FONT_8X16_P10@ + crate::fontdata::FONT_8X16_P11@
        + crate::fontdata::FONT_8X16_P12@ + crate::fontdata::FONT_8X16_P13@
        + crate::fontdata::FONT_8X16_P14@ + crate::fontdata::FONT_8X16_P15@
}

/// The raw glyph rows of the built-in 8x8 font, in codepoint order.
pub open spec fn font_8_bytes() -> Seq<u8> {
    crate::fontdata::FONT_8X8_P0@ + crate::fontdata::FONT_8X8_P1@
        + crate::fontdata::FONT_8X8_P2@ + crate::fontdata::FONT_8X8_P3@
        + crate::fontdata::FONT_8X8_P4@ + crate::fontdata::FONT_8X8_P5@
        + crate::fontdata::FONT_8X8_P6@ + crate::fontdata::FONT_8X8_P7@
}

/// Appends one 256-byte block of glyph rows to a byte vector.
fn append_rows(dst: &mut Vec<u8>, src: &[u8; 256])
    ensures
        final(dst)@ == old(dst)@ + src@,
{
    let mut i: usize = 0;
    while i < 256
        invariant
            i <= 256,
            dst@ == old(dst)@ + src@.take(i as int),
        decreases 256 - i,
    {
        dst.push(src[i]);
        proof {
            assert(dst@ =~= old(dst)@ + src@.take(i as int + 1));
        }
        i = i + 1;
    }
    proof {
        assert(src@.take(256) =~= src@);
    }
}

impl Font {
    /// The font has 8-pixel-wide cells of height 8 or 16, a consistent cell
    /// size, and a full bit array of 256 glyphs whose entries are all 0 or 1.
    pub open spec fn wf(&self) -> bool {
        &&& self.width == 8
        &&& (self.height == 8 || self.height == 16)
        &&& self.size == self.width * self.height
        &&& self.bitmask@.len() == 256 * self.size
        &&& forall|k: int| 0 <= k < self.bitmask@.len() ==> #[trigger] self.bitmask@[k] <= 1
    }

    /// Bit `k` of the glyph for codepoint `cp`.
    pub open spec fn glyph_bit(&self, cp: int, k: int) -> u8 {
        self.bitmask@[cp * self.size + k]
    }

    /// Builds a font from 256 consecutive glyphs of one byte per row, the
    /// most significant bit being the leftmost pixel.
    pub fn with_bytes(bytes: Vec<u8>, font_type: FontType) -> (r: Font)
        requires
            bytes@.len() == 2048 || bytes@.len() == 4096,
        ensures
            r.wf(),
            r.width == 8,
            r.height == bytes@.len() / 256,
            r.size == 8 * (bytes@.len() / 256),
            r.font_type == font_type,
            r.bitmask@.len() == 8 * bytes@.len(),
            forall|i: int| 0 <= i < r.bitmask@.len() ==> r.bitmask@[i] == bit_expand(bytes@, i),
    {
        let width: u32 = 8;
        let height: u32 = (bytes.len() / 256) as u32;
        let size: u32 = width * height;
        let mut bitmask: Vec<u8> = Vec::new();
        let mut i: usize = 0;
        while i < bytes.len()
            invariant
                i <= bytes@.len(),
                bytes@.len() == 2048 || bytes@.len() == 4096,
                bitmask@.len() == 8 * i,
                forall|k: int| 0 <= k < bitmask@.len() ==> bitmask@[k] == bit_expand(bytes@, k),
                forall|k: int| 0 <= k < bitmask@.len() ==> #[trigger] bitmask@[k] <= 1,
            decreases bytes@.len() - i,
        {
            let byte = bytes[i];
            let mut j: u32 = 0;
            while j < 8
                invariant
                    j <= 8,
                    i < bytes@.len(),
                    bytes@.len() == 2048 || bytes@.len() == 4096,
                    byte == bytes@[i as int],
                    bitmask@.len() == 8 * i + j,
                    forall|k: int| 0 <= k < bitmask@.len() ==> bitmask@[k] == bit_expand(
                        bytes@,
                        k,
                    ),
                    forall|k: int| 0 <= k < bitmask@.len() ==> #[trigger] bitmask@[k] <= 1,
                decreases 8 - j,
            {
                let shift: u32 = 7 - j;
                let bit: u8 = if (byte >> shift) & 1 == 1 {
                    1
                } else {
                    0
                };
                proof {
                    let k0 = bitmask@.len() as int;
                    assert(k0 / 8 == i && k0 % 8 == j) by (nonlinear_arith)
                        requires
                            k0 == 8 * i + j && 0 <= j < 8 && i >= 0,
                    ;
                    assert(byte >> ((7 - (j as int)) as u8) == byte >> ((7 - j) as u8));
                }
                bitmask.push(bit);
                j = j + 1;
            }
            i = i + 1;
        }
        Font { width, height, size, bitmask, font_type }
    }

    /// The built-in 8x16 text-mode font: its bit array is exactly the
    /// unpacking of the bundled glyph tables.
    pub fn ibm_vga() -> (r: Font)
        ensures
            r.wf(),
            r.width == 8,
            r.height == 16,
            r.size == 128,
            r.font_type == FontType::IBMVGAType,
            r.bitmask@.len() == 32768,
            forall|i: int| 0 <= i < r.bitmask@.len() ==> r.bitmask@[i] == bit_expand(
                font_16_bytes(),
                i,
            ),
    {
        let mut bytes: Vec<u8> = Vec::new();
        append_rows(&mut bytes, &crate::fontdata::FONT_8X16_P0);
        append_rows(&mut bytes, &crate::fontdata::FONT_8X16_P1);
        append_rows(&mut bytes, &crate::fontdata::FONT_8X16_P2);
        append_rows(&mut bytes, &crate::fontdata::FONT_8X16_P3);
        append_rows(&mut bytes, &crate::fontdata::FONT_8X16_P4);
        append_rows(&mut bytes, &crate::fontdata::FONT_8X16_P5);
        append_rows(&mut bytes, &crate::fontdata::FONT_8X16_P6);
        append_rows(&mut bytes, &crate::fontdata::FONT_8X16_P7);
        append_rows(&mut bytes, &crate::fontdata::FONT_8X16_P8);
        append_rows(&mut bytes, &crate::fontdata::FONT_8X16_P9);
        append_rows(&mut bytes, &crate::fontdata::FONT_8X16_P10);
        append_rows(&mut bytes, &crate::fontdata::FONT_8X16_P11);
        append_rows(&mut bytes, &crate::fontdata::FONT_8X16_P12);
        append_rows(&mut bytes, &crate::fontdata::FONT_8X16_P13);
        append_rows(&mut bytes, &crate::fontdata::FONT_8X16_P14);
        append_rows(&mut bytes, &crate::fontdata::FONT_8X16_P15);
        proof {
            assert(bytes@ =~= font_16_bytes());
        }
        Font::with_bytes(bytes, FontType::IBMVGAType)
    }

    /// The built-in 8x8 text-mode font: its bit array is exactly the
    /// unpacking of the bundled glyph tables.
    pub fn vga50() -> (r: Font)
        ensures
            r.wf(),
            r.width == 8,
            r.height == 8,
            r.size == 64,
            r.font_type == FontType::VGA50Type,
            r.bitmask@.len() == 16384,
            forall|i: int| 0 <= i < r.bitmask@.len() ==> r.bitmask@[i] == bit_expand(
                font_8_bytes(),
                i,
            ),
    {
        let mut bytes: Vec<u8> = Vec::new();
        append_rows(&mut bytes, &crate::fontdata::FONT_8X8_P0);
        append_rows(&mut bytes, &crate::fontdata::FONT_8X8_P1);
        append_rows(&mut bytes, &crate::fontdata::FONT_8X8_P2);
        append_rows(&mut bytes, &crate::fontdata::FONT_8X8_P3);
        append_rows(&mut bytes, &crate::fontdata::FONT_8X8_P4);
        append_rows(&mut bytes, &crate::fontdata::FONT_8X8_P5);
        append_rows(&mut bytes, &crate::fontdata::FONT_8X8_P6);
        append_rows(&mut bytes, &crate::fontdata::FONT_8X8_P7);
        proof {
            assert(bytes@ =~= font_8_bytes());
        }
        Font::with_bytes(bytes, FontType::VGA50Type)
    }

    /// The `width * height` bit sequence of one glyph, each element 0 or 1.
    pub fn bits_for_codepoint(&self, codepoint: u8) -> (r: Vec<u8>)
        requires
            self.wf(),
        ensures
            r@.len() == self.size,
            forall|k: int| 0 <= k < r@.len() ==> r@[k] == self.glyph_bit(codepoint as int, k),
            forall|k: int| 0 <= k < r@.len() ==> #[trigger] r@[k] <= 1,
    {
        proof {
            assert((codepoint as int) * (self.size as int) + self.size <= 256 * (self.size as int))
                by (nonlinear_arith)
                requires
                    codepoint <= 255 && self.size >= 0,
            ;
        }
        let start: usize = (codepoint as usize) * (self.size as usize);
        let mut r: Vec<u8> = Vec::new();
        let mut k: usize = 0;
        while k < self.size as usize
            invariant
                k <= self.size,
                self.wf(),
                start == (codepoint as int) * (self.size as int),
                start + self.size <= self.bitmask@.len(),
                r@.len() == k,
                forall|t: int| 0 <= t < r@.len() ==> r@[t] == self.glyph_bit(codepoint as int, t),
                forall|t: int| 0 <= t < r@.len() ==> #[trigger] r@[t] <= 1,
            decreases self.size - k,
        {
            r.push(self.bitmask[start + k]);
            k = k + 1;
        }
        r
    }

    /// Renders a codepoint to an RGBA tile: `fg` where the glyph bit is 1,
    /// `bg` (or opaque black when absent) where it is 0.
    pub fn render_codepoint(&self, codepoint: u8, fg: [u8; 4], bg: Option<[u8; 4]>) -> (r:
        Codepoint)
        requires
            self.wf(),
        ensures
            r.width == self.width,
            r.height == self.height,
            r.bytes@.len() == 4 * self.size,
            r.bytes@.len() == 4 * r.width * r.height,
            forall|k: int| 0 <= k < r.bytes@.len() ==> r.bytes@[k] == render_byte(
                self,
                codepoint,
                fg,
                bg,
                k,
            ),
    {
        let color_off: [u8; 4] = match bg {
            Option::Some(c) => c,
            Option::None => [0, 0, 0, 255],
        };
        proof {
            assert((codepoint as int) * (self.size as int) + self.size <= 256 * (self.size as int))
                by (nonlinear_arith)
                requires
                    codepoint <= 255 && self.size >= 0,
            ;
            assert(4 * (self.width as int) * (self.height as int) == 4 * (self.size as int))
                by (nonlinear_arith)
                requires
                    self.size == self.width * self.height,
            ;
        }
        let start: usize = (codepoint as usize) * (self.size as usize);
        let mut bytes: Vec<u8> = Vec::new();
        let mut p: usize = 0;
        while p < self.size as usize
            invariant
                p <= self.size,
                self.wf(),
                start == (codepoint as int) * (self.size as int),
                start + self.size <= self.bitmask@.len(),
                bytes@.len() == 4 * p,
                forall|k: int| 0 <= k < bytes@.len() ==> bytes@[k] == render_byte(
                    self,
                    codepoint,
                    fg,
                    bg,
                    k,
                ),
                color_off@ == (match bg {
                    Option::Some(c) => c@,
                    Option::None => seq![0u8, 0u8, 0u8, 255u8],
                }),
            decreases self.size - p,
        {
            let bit = self.bitmask[start + p];
            let col: [u8; 4] = if bit == 1 {
                fg
            } else {
                color_off
            };
            let ghost old_len = bytes@.len() as int;
            bytes.push(col[0]);
            bytes.push(col[1]);
            bytes.push(col[2]);
            bytes.push(col[3]);
            proof {
                assert forall|k: int| old_len <= k < old_len + 4 implies bytes@[k] == render_byte(
                    self,
                    codepoint,
                    fg,
                    bg,
                    k,
                ) by {
                    let c = k - 4 * (p as int);
                    assert(k / 4 == p as int && k % 4 == c) by (nonlinear_arith)
                        requires
                            k == 4 * (p as int) + c && 0 <= c < 4 && p >= 0,
                    ;
                }
            }
            p = p + 1;
        }
        Codepoint { width: self.width, height: self.height, bytes }
    }

    /// Writes the rendered tile into `img` with its top-left pixel at
    /// (x, y); the tile must lie entirely inside the raster.
    #[verifier::rlimit(60)]
    pub fn draw_codepoint(&self, img: &mut PixelImage, codepoint: &Codepoint, x: u32, y: u32)
        requires
            old(img).wf(),
            codepoint.width >= 1,
            codepoint.height >= 1,
            codepoint.bytes@.len() == 4 * codepoint.width * codepoint.height,
            x + codepoint.width <= old(img).width,
            y + codepoint.height <= old(img).height,
        ensures
            final(img).width == old(img).width,
            final(img).height == old(img).height,
            final(img).wf(),
            forall|k: int| 0 <= k < final(img).pixels@.len() ==> final(img).pixels@[k] == (
            if in_tile_rect(old(img), x as int, y as int, codepoint.width as int,
                codepoint.height as int, k) {
                codepoint.bytes@[tile_src_index(old(img), x as int, y as int,
                        codepoint.width as int, k)]
            } else {
                old(img).pixels@[k]
            }),
    {
        let w: u32 = codepoint.width;
        let h: u32 = codepoint.height;
        let ghost w_i = w as int;
        let ghost h_i = h as int;
        let ghost x_i = x as int;
        let ghost y_i = y as int;
        let ghost img0 = *img;
        let mut ty: u32 = 0;
        while ty < h
            invariant
                ty <= h,
                img.width == img0.width,
                img.height == img0.height,
                img.pixels@.len() == img0.pixels@.len(),
                img0.wf(),
                img.wf(),
                w_i == w && h_i == h && x_i == x && y_i == y,
                w >= 1 && h >= 1,
                codepoint.bytes@.len() == 4 * w_i * h_i,
                x_i + w_i <= img0.width,
                y_i + h_i <= img0.height,
                forall|k: int| 0 <= k < img.pixels@.len() ==> img.pixels@[k] == drawn_upto(
                    &img0,
                    codepoint.bytes@,
                    x_i,
                    y_i,
                    w_i,
                    h_i,
                    w_i * (ty as int),
                    k,
                ),
            decreases h - ty,
        {
            let mut tx: u32 = 0;
            while tx < w
                invariant
                    tx <= w,
                    ty < h,
                    img.width == img0.width,
                    img.height == img0.height,
                    img.pixels@.len() == img0.pixels@.len(),
                    img0.wf(),
                    img.wf(),
                    w_i == w && h_i == h && x_i == x && y_i == y,
                    w >= 1 && h >= 1,
                    codepoint.bytes@.len() == 4 * w_i * h_i,
                    x_i + w_i <= img0.width,
                    y_i + h_i <= img0.height,
                    forall|k: int| 0 <= k < img.pixels@.len() ==> img.pixels@[k] == drawn_upto(
                        &img0,
                        codepoint.bytes@,
                        x_i,
                        y_i,
                        w_i,
                        h_i,
                        w_i * (ty as int) + tx,
                        k,
                    ),
                decreases w - tx,
            {
                let px: u32 = x + tx;
                let py: u32 = y + ty;
                let ghost limit = w_i * (ty as int) + tx;
                proof {
                    lemma_pixel_byte_range(&img0, px as int, py as int);
                    assert(limit < w_i * h_i && 4 * limit + 3 < 4 * w_i * h_i)
                        by (nonlinear_arith)
                        requires
                            limit == w_i * (ty as int) + tx && 0 <= tx < w_i && 0 <= ty < h_i
                                && w_i >= 1,
                    ;
                }
                let plen: usize = img.pixels.len();
                proof {
                    assert(img0.pixel_base(px as int, py as int) + 4 <= plen);
                }
                let tb: usize = 4 * ((py as usize) * (img.width as usize) + (px as usize));
                let cplen: usize = codepoint.bytes.len();
                proof {
                    assert((ty as int) * w_i + tx == limit && (ty as int) * w_i <= limit)
                        by (nonlinear_arith)
                        requires
                            limit == w_i * (ty as int) + tx && tx >= 0,
                    ;
                    assert(4 * limit + 4 <= cplen);
                }
                let sb: usize = 4 * ((ty as usize) * (w as usize) + (tx as usize));
                proof {
                    assert(sb == 4 * limit) by (nonlinear_arith)
                        requires
                            sb == 4 * ((ty as int) * w_i + tx) && limit == w_i * (ty as int) + tx,
                    ;
                }
                let ghost pix_before = img.pixels@;
                img.pixels[tb] = codepoint.bytes[sb];
                img.pixels[tb + 1] = codepoint.bytes[sb + 1];
                img.pixels[tb + 2] = codepoint.bytes[sb + 2];
                img.pixels[tb + 3] = codepoint.bytes[sb + 3];
                proof {
                    let wd = img0.width as int;
                    let pp = (py as int) * wd + (px as int);
                    let cpb = codepoint.bytes@;
                    assert forall|k: int| 0 <= k < img.pixels@.len() implies img.pixels@[k]
                        == drawn_upto(&img0, cpb, x_i, y_i, w_i, h_i, limit + 1, k) by {
                        if 4 * pp <= k < 4 * pp + 4 {
                            let c = k - 4 * pp;
                            assert(k / 4 == pp && k % 4 == c) by (nonlinear_arith)
                                requires
                                    k == 4 * pp + c && 0 <= c < 4 && pp >= 0,
                            ;
                            assert(pp % wd == px as int && pp / wd == py as int)
                                by (nonlinear_arith)
                                requires
                                    pp == (py as int) * wd + (px as int) && 0 <= (px as int) < wd
                                        && (py as int) >= 0,
                            ;
                            assert(((py as int) - y_i) * w_i + ((px as int) - x_i) == limit)
                                by (nonlinear_arith)
                                requires
                                    (py as int) - y_i == ty as int && (px as int) - x_i
                                        == tx as int && limit == w_i * (ty as int) + tx,
                            ;
                        } else {
                            assert(img.pixels@[k] == pix_before[k]);
                            let pk = k / 4;
                            let pxk = pk % wd;
                            let pyk = pk / wd;
                            if x_i <= pxk < x_i + w_i && y_i <= pyk < y_i + h_i {
                                let g = (pyk - y_i) * w_i + (pxk - x_i);
                                if g == limit {
                                    assert(pyk - y_i == ty as int && pxk - x_i == tx as int)
                                        by (nonlinear_arith)
                                        requires
                                            g == w_i * (ty as int) + tx && g == (pyk - y_i) * w_i
                                                + (pxk - x_i) && 0 <= pxk - x_i < w_i && 0 <= tx
                                                < w_i && w_i >= 1 && 0 <= ty && 0 <= pyk - y_i,
                                    ;
                                    assert(pk == pp) by (nonlinear_arith)
                                        requires
                                            pxk == pk % wd && pyk == pk / wd && wd >= 1 && pk >= 0
                                                && pxk == px as int && pyk == py as int && pp == (
                                            py as int) * wd + (px as int),
                                    ;
                                    assert(4 * pp <= k < 4 * pp + 4) by (nonlinear_arith)
                                        requires
                                            pk == k / 4 && pk == pp && k >= 0,
                                    ;
                                    assert(false);
                                }
                            }
                        }
                    }
                }
                tx = tx + 1;
            }
            proof {
                assert(w_i * (ty as int) + w_i == w_i * ((ty as int) + 1)) by (nonlinear_arith);
            }
            ty = ty + 1;
        }
        proof {
            assert forall|k: int| 0 <= k < img.pixels@.len() implies img.pixels@[k] == (
            if in_tile_rect(&img0, x_i, y_i, w_i, h_i, k) {
                codepoint.bytes@[tile_src_index(&img0, x_i, y_i, w_i, k)]
            } else {
                img0.pixels@[k]
            }) by {
                let wd = img0.width as int;
                let pk = k / 4;
                let pxk = pk % wd;
                let pyk = pk / wd;
                if x_i <= pxk < x_i + w_i && y_i <= pyk < y_i + h_i {
                    assert((pyk - y_i) * w_i + (pxk - x_i) < w_i * h_i) by (nonlinear_arith)
                        requires
                            0 <= pxk - x_i < w_i && 0 <= pyk - y_i < h_i,
                    ;
                }
            }
        }
    }

    /// The SAUCE name of this font, at most 22 ASCII bytes.
    #[verifier::rlimit(30)]
    pub fn name_bytes(&self) -> (r: Vec<u8>)
        ensures
            r@ == font_name_spec(self.font_type),
            r@.len() <= 22,
    {
        let mut r: Vec<u8> = Vec::new();
        match self.font_type {
            FontType::IBMVGAType => {
                r.push(73);
                r.push(66);
                r.push(77);
                r.push(32);
                r.push(86);
                r.push(71);
                r.push(65);
                proof {
                    assert(r@ =~= font_name_spec(FontType::IBMVGAType));
                }
            },
            FontType::VGA50Type => {
                r.push(73);
                r.push(66);
                r.push(77);
                r.push(32);
                r.push(86);
                r.push(71);
                r.push(65);
                r.push(53);
                r.push(48);
                proof {
                    assert(r@ =~= font_name_spec(FontType::VGA50Type));
                }
            },
        }
        r
    }
}

/// The outcome of a glyph search: a codepoint plus which palette entry
/// plays foreground (index `fg`) and which background (index `bg`).
#[derive(Clone, Copy, Debug)]
pub struct Match {
    pub codepoint: u8,
    pub fg: u8,
    pub bg: u8,
}

/// Codepoints that carry terminal-control meaning in the output stream and
/// are never selected by the matcher.
pub open spec fn excluded(cp: u8) -> bool {
    cp == 9 || cp == 10 || cp == 13 || cp == 26 || cp == 27
}

/// The block-drawing candidate list used when matching is restricted.
pub open spec fn restricted_list() -> Seq<u8> {
    seq![32u8, 176u8, 177u8, 178u8, 219u8, 220u8, 221u8, 222u8, 223u8]
}

/// The first `n` codepoints in ascending order, the excluded ones left out.
pub open spec fn full_candidates(n: int) -> Seq<u8>
    decreases n,
{
    if n <= 0 {
        Seq::empty()
    } else if excluded((n - 1) as u8) {
        full_candidates(n - 1)
    } else {
        full_candidates(n - 1).push((n - 1) as u8)
    }
}

/// The candidate codepoints the search walks, in order.
pub open spec fn candidates(restrict: bool) -> Seq<u8> {
    if restrict {
        restricted_list()
    } else {
        full_candidates(256)
    }
}

/// Every candidate list entry is free of the excluded codepoints, and the
/// list grows by at most one entry per codepoint.
pub proof fn lemma_full_candidates(n: int)
    requires
        0 <= n <= 256,
    ensures
        full_candidates(n).len() <= n,
        forall|i: int| 0 <= i < full_candidates(n).len() ==> !excluded(
            #[trigger] full_candidates(n)[i],
        ),
    decreases n,
{
    if n > 0 {
        lemma_full_candidates(n - 1);
    }
}

/// Number of positions among the first `n` where the glyph bit of `cp`
/// equals the tile's palette index.
pub open spec fn direct_count(font: &Font, cp: u8, tile: Seq<u8>, n: int) -> int
    decreases n,
{
    if n <= 0 {
        0
    } else {
        direct_count(font, cp, tile, n - 1) + if font.glyph_bit(cp as int, n - 1) == tile[n - 1] {
            1int
        } else {
            0int
        }
    }
}

/// Number of positions among the first `n` where the glyph bit of `cp`
/// differs from the tile's palette index.
pub open spec fn inverse_count(font: &Font, cp: u8, tile: Seq<u8>, n: int) -> int
    decreases n,
{
    if n <= 0 {
        0
    } else {
        inverse_count(font, cp, tile, n - 1) + if font.glyph_bit(cp as int, n - 1) != tile[n - 1] {
            1int
        } else {
            0int
        }
    }
}

/// The two counts are bounded by `n` and partition the `n` positions.
#[verifier::rlimit(30)]
pub proof fn lemma_counts(font: &Font, cp: u8, tile: Seq<u8>, n: int)
    requires
        n >= 0,
    ensures
        0 <= direct_count(font, cp, tile, n) <= n,
        0 <= inverse_count(font, cp, tile, n) <= n,
        direct_count(font, cp, tile, n) + inverse_count(font, cp, tile, n) == n,
    decreases n,
{
    if n > 0 {
        lemma_counts(font, cp, tile, n - 1);
    }
}

/// One step of the default search.  When the direct orientation beats the
/// running score the candidate is taken with its direct count; when the
/// inverse orientation beats it the candidate is taken with the inverse
/// roles, but the stored score is still the direct count of that candidate.
/// The latter asymmetry is kept deliberately for output compatibility.
pub open spec fn match_step(font: &Font, tile: Seq<u8>, st: (Match, int), cp: u8) -> (Match, int) {
    let n = font.size as int;
    let d = direct_count(font, cp, tile, n);
    let inv = inverse_count(font, cp, tile, n);
    let st1 = if d > st.1 {
        ((Match { codepoint: cp, fg: 1u8, bg: 0u8 }), d)
    } else {
        st
    };
    if inv > st1.1 {
        ((Match { codepoint: cp, fg: 0u8, bg: 1u8 }), d)
    } else {
        st1
    }
}

/// The default search folded over a candidate list.
pub open spec fn match_fold(font: &Font, tile: Seq<u8>, cands: Seq<u8>) -> (Match, int)
    decreases cands.len(),
{
    if cands.len() == 0 {
        ((Match { codepoint: 0u8, fg: 0u8, bg: 0u8 }), 0int)
    } else {
        match_step(font, tile, match_fold(font, tile, cands.drop_last()), cands.last())
    }
}

/// A search state names one of the walked candidates, assigns the two
/// palette roles, and stores the direct count of the named candidate.
pub open spec fn match_state_ok(font: &Font, tile: Seq<u8>, cands: Seq<u8>, st: (Match, int)) -> bool {
    &&& cands.contains(st.0.codepoint)
    &&& ((st.0.fg == 1 && st.0.bg == 0) || (st.0.fg == 0 && st.0.bg == 1))
    &&& st.1 == direct_count(font, st.0.codepoint, tile, font.size as int)
}

/// Folding the default search over a non-empty candidate list yields a
/// well-formed state: the cell size is positive, so the first candidate
/// always displaces the initial state.
#[verifier::rlimit(60)]
pub proof fn lemma_match_fold_props(font: &Font, tile: Seq<u8>, cands: Seq<u8>)
    requires
        font.wf(),
        cands.len() >= 1,
    ensures
        match_state_ok(font, tile, cands, match_fold(font, tile, cands)),
    decreases cands.len(),
{
    let prev = cands.drop_last();
    let cp = cands.last();
    let n = font.size as int;
    lemma_counts(font, cp, tile, n);
    assert(cands[cands.len() - 1] == cp);
    if cands.len() == 1 {
        let st0 = match_fold(font, tile, prev);
        assert(prev.len() == 0);
        assert(st0 == ((Match { codepoint: 0u8, fg: 0u8, bg: 0u8 }), 0int));
        // either the direct count is positive, or the inverse count equals
        // the full (positive) cell size; both branches take the candidate
        assert(n >= 64);
        assert(cands.contains(cp));
    } else {
        lemma_match_fold_props(font, tile, prev);
        let st0 = match_fold(font, tile, prev);
        assert(prev.contains(st0.0.codepoint));
        let witness = choose|i: int| 0 <= i < prev.len() && prev[i] == st0.0.codepoint;
        assert(cands[witness] == st0.0.codepoint);
        assert(cands.contains(st0.0.codepoint));
        assert(cands.contains(cp));
    }
}

impl Font {
    /// Counts the positions where the glyph bits of `cp` agree with the
    /// tile's palette indices.
    #[verifier::rlimit(30)]
    fn count_direct(&self, cp: u8, other: &[u8]) -> (c: u32)
        requires
            self.wf(),
            other@.len() == self.size,
        ensures
            c as int == direct_count(self, cp, other@, self.size as int),
            c <= self.size,
    {
        proof {
            assert((cp as int) * (self.size as int) + self.size <= 256 * (self.size as int))
                by (nonlinear_arith)
                requires
                    cp <= 255 && self.size >= 0,
            ;
        }
        let start: usize = (cp as usize) * (self.size as usize);
        let mut c: u32 = 0;
        let mut k: usize = 0;
        while k < self.size as usize
            invariant
                k <= self.size,
                self.wf(),
                other@.len() == self.size,
                start == (cp as int) * (self.size as int),
                start + self.size <= self.bitmask@.len(),
                c as int == direct_count(self, cp, other@, k as int),
                c <= k,
            decreases self.size - k,
        {
            if self.bitmask[start + k] == other[k] {
                c = c + 1;
            }
            k = k + 1;
        }
        c
    }

    /// Builds the candidate list for a search.
    #[verifier::rlimit(40)]
    fn candidate_vec(restrict: bool) -> (r: Vec<u8>)
        ensures
            r@ == candidates(restrict),
            r@.len() >= 1,
    {
        let mut cands: Vec<u8> = Vec::new();
        if restrict {
            cands.push(32);
            cands.push(176);
            cands.push(177);
            cands.push(178);
            cands.push(219);
            cands.push(220);
            cands.push(221);
            cands.push(222);
            cands.push(223);
            proof {
                assert(cands@ =~= restricted_list());
            }
        } else {
            let mut c: u32 = 0;
            while c < 256
                invariant
                    c <= 256,
                    cands@ == full_candidates(c as int),
                    c >= 1 ==> cands@.len() >= 1,
                decreases 256 - c,
            {
                if !(c == 9 || c == 10 || c == 13 || c == 26 || c == 27) {
                    cands.push(c as u8);
                }
                c = c + 1;
            }
            proof {
                lemma_full_candidates(256);
            }
        }
        cands
    }

    /// The default glyph search: walks the candidate codepoints in order and
    /// keeps the one whose direct or inverse agreement strictly beats the
    /// running score, with the deliberate quirk that an inverse win stores
    /// the candidate's direct count as the new score.
    #[verifier::rlimit(60)]
    pub fn find_closest_bitmask(&self, other: &[u8], restrict: bool) -> (m: Match)
        requires
            self.wf(),
            other@.len() == self.size,
        ensures
            m == match_fold(self, other@, candidates(restrict)).0,
            !excluded(m.codepoint),
            restrict ==> restricted_list().contains(m.codepoint),
            m.fg + m.bg == 1,
    {
        let cands = Self::candidate_vec(restrict);
        let mut m = Match { codepoint: 0, fg: 0, bg: 0 };
        let mut best: u32 = 0;
        let mut idx: usize = 0;
        while idx < cands.len()
            invariant
                idx <= cands@.len(),
                self.wf(),
                other@.len() == self.size,
                cands@ == candidates(restrict),
                (m, best as int) == match_fold(self, other@, cands@.take(idx as int)),
                best <= self.size,
            decreases cands@.len() - idx,
        {
            let cp = cands[idx];
            let d: u32 = self.count_direct(cp, other);
            proof {
                lemma_counts(self, cp, other@, self.size as int);
            }
            let inv: u32 = self.size - d;
            if d > best {
                m = Match { codepoint: cp, fg: 1, bg: 0 };
                best = d;
            }
            if inv > best {
                m = Match { codepoint: cp, fg: 0, bg: 1 };
                best = d;
            }
            proof {
                assert(cands@.take(idx as int + 1).drop_last() =~= cands@.take(idx as int));
                assert(cands@.take(idx as int + 1).last() == cands@[idx as int]);
            }
            idx = idx + 1;
        }
        proof {
            assert(cands@.take(cands@.len() as int) =~= cands@);
            lemma_match_fold_props(self, other@, cands@);
            if restrict {
                assert forall|i: int|
                    0 <= i < restricted_list().len() implies !excluded(
                    #[trigger] restricted_list()[i],
                ) by {}
            } else {
                lemma_full_candidates(256);
            }
        }
        m
    }
}

} // verus!
