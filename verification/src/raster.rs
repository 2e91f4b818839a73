//! A plain RGBA raster type, the resampling step that fits a source image to
//! the character grid, and the extraction of cell-sized tiles from it.

use vstd::prelude::*;

verus! {

/// An RGBA raster held as a flat byte vector: four bytes per pixel in RGBA
/// order, pixels stored row by row, top to bottom, left to right.
pub struct PixelImage {
    pub width: u32,
    pub height: u32,
    pub pixels: Vec<u8>,
}

impl PixelImage {
    /// The byte vector holds exactly four bytes for every pixel.
    pub open spec fn wf(&self) -> bool {
        self.pixels@.len() == 4 * self.width * self.height
    }

    /// Byte offset of the first component of the pixel at (x, y).
    pub open spec fn pixel_base(&self, x: int, y: int) -> int {
        4 * (y * self.width + x)
    }

    /// The four RGBA components of the pixel at (x, y).
    pub open spec fn pixel_at(&self, x: int, y: int) -> Seq<u8> {
        self.pixels@.subrange(self.pixel_base(x, y), self.pixel_base(x, y) + 4)
    }

    /// A raster of the given dimensions with every byte zero
    /// (transparent black).
    pub fn new_black(width: u32, height: u32) -> (r: PixelImage)
        requires
            width >= 1,
            height >= 1,
            4 * (width as int) * (height as int) <= usize::MAX,
        ensures
            r.width == width,
            r.height == height,
            r.wf(),
            forall|k: int| 0 <= k < r.pixels@.len() ==> r.pixels@[k] == 0u8,
    {
        proof {
            assert(4 * (width as int) <= 4 * (width as int) * (height as int) && (4 * (
            width as int)) * (height as int) == 4 * (width as int) * (height as int))
                by (nonlinear_arith)
                requires
                    width >= 1 && height >= 1,
            ;
        }
        let n: usize = 4 * (width as usize) * (height as usize);
        let mut pixels: Vec<u8> = Vec::new();
        let mut i: usize = 0;
        while i < n
            invariant
                i <= n,
                pixels@.len() == i,
                forall|k: int| 0 <= k < i ==> pixels@[k] == 0u8,
            decreases n - i,
        {
            pixels.push(0);
            i = i + 1;
        }
        PixelImage { width, height, pixels }
    }

    /// The number of character rows that fit the image to `columns` columns
    /// of `width` x `height` cells while preserving its aspect ratio:
    /// ceil(width * columns / self.width * self.height / height).
    pub open spec fn rows_spec(&self, columns: int, width: int, height: int) -> int {
        let a = width * columns * self.height;
        let b = self.width * height;
        (a + b - 1) / b
    }

    /// Computes `rows_spec`, the exact rational ceiling: the returned count
    /// is the least number of cell rows covering the scaled image height.
    pub fn calculate_rows(&self, columns: u32, width: u32, height: u32) -> (rows: u32)
        requires
            self.width >= 1,
            self.height >= 1,
            1 <= columns <= 0xFFFF,
            1 <= width <= 0xFF,
            1 <= height <= 0xFF,
            self.rows_spec(columns as int, width as int, height as int) <= u32::MAX,
        ensures
            rows == self.rows_spec(columns as int, width as int, height as int),
            rows >= 1,
            ({
                let a = (width as int) * (columns as int) * (self.height as int);
                let b = (self.width as int) * (height as int);
                b * (rows - 1) < a <= b * rows
            }),
    {
        proof {
            assert((width as int) * (columns as int) * (self.height as int) >= 1 && (
            self.width as int) * (height as int) >= 1) by (nonlinear_arith)
                requires
                    width >= 1 && columns >= 1 && self.height >= 1 && self.width >= 1 && height
                        >= 1,
            ;
            assert((width as int) * (columns as int) <= 0xFF * 0xFFFF && (width as int) * (
            columns as int) * (self.height as int) <= 0xFF * 0xFFFF * 0xFFFFFFFF && (
            self.width as int) * (height as int) <= 0xFFFFFFFF * 0xFF)
                by (nonlinear_arith)
                requires
                    width <= 0xFF && columns <= 0xFFFF && self.height <= 0xFFFFFFFF && self.width
                        <= 0xFFFFFFFF && height <= 0xFF && width >= 1 && columns >= 1
                        && self.height >= 1 && self.width >= 1 && height >= 1,
            ;
        }
        let a: u64 = (width as u64) * (columns as u64) * (self.height as u64);
        let b: u64 = (self.width as u64) * (height as u64);
        let rows: u64 = (a + b - 1) / b;
        proof {
            let ai = a as int;
            let bi = b as int;
            let r = (ai + bi - 1) / bi;
            assert(bi * (r - 1) < ai <= bi * r && r >= 1) by (nonlinear_arith)
                requires
                    ai >= 1 && bi >= 1 && r == (ai + bi - 1) / bi,
            ;
        }
        rows as u32
    }
}

/// The pixel bytes of the image resampled to exactly `tw` x `th` with a
/// Lanczos-3 windowed-sinc filter.  The resampler is a pure function of the
/// source pixels and the dimensions, so its result carries a name here.
pub uninterp spec fn lanczos_resized(pixels: Seq<u8>, sw: u32, sh: u32, tw: u32, th: u32) -> Seq<
    u8,
>;

/// Relies on `image::imageops::resize` with `FilterType::Lanczos3`: the
/// result has exactly the requested dimensions, and when the requested
/// dimensions equal the source's the function returns an unchanged copy.
/// `ImageBuffer::from_raw` and `into_raw` merely repackage the byte vector.
#[verifier::external_body]
pub(crate) fn resize_lanczos(img: &PixelImage, tw: u32, th: u32) -> (r: PixelImage)
    requires
        img.wf(),
        img.width >= 1,
        img.height >= 1,
        tw >= 1,
        th >= 1,
        4 * (tw as int) * (th as int) <= usize::MAX,
    ensures
        r.width == tw,
        r.height == th,
        r.wf(),
        r.pixels@ == lanczos_resized(img.pixels@, img.width, img.height, tw, th),
        img.width == tw && img.height == th ==> r.pixels@ == img.pixels@,
{
    let buf: image::RgbaImage = image::RgbaImage::from_raw(
        img.width,
        img.height,
        img.pixels.clone(),
    ).unwrap();
    let out = image::imageops::resize(&buf, tw, th, image::imageops::FilterType::Lanczos3);
    PixelImage { width: tw, height: th, pixels: out.into_raw() }
}

/// The `k`-th byte of the `w` x `h` tile whose top-left pixel sits at
/// (x0, y0) in `img`.  Alpha components are forced to fully opaque.
pub open spec fn tile_byte(img: &PixelImage, x0: int, y0: int, w: int, h: int, k: int) -> u8 {
    let p = k / 4;
    let c = k % 4;
    let px = x0 + p % w;
    let py = y0 + p / w;
    if c == 3 {
        255u8
    } else {
        img.pixels@[img.pixel_base(px, py) + c]
    }
}

impl PixelImage {
    /// Copies the `w` x `h` rectangle at (x0, y0) out of the raster, forcing
    /// every alpha component to fully opaque.
    pub fn extract_tile(&self, x0: u32, y0: u32, w: u32, h: u32) -> (r: Vec<u8>)
        requires
            self.wf(),
            w >= 1,
            h >= 1,
            x0 + w <= self.width,
            y0 + h <= self.height,
        ensures
            r@.len() == 4 * w * h,
            forall|k: int| 0 <= k < r@.len() ==> r@[k] == tile_byte(
                self,
                x0 as int,
                y0 as int,
                w as int,
                h as int,
                k,
            ),
    {
        proof {
            assert(4 * (w as int) * (h as int) <= 4 * (self.width as int) * (self.height as int))
                by (nonlinear_arith)
                requires
                    w <= self.width && h <= self.height && w >= 1 && h >= 1,
            ;
        }
        let mut r: Vec<u8> = Vec::new();
        let mut py: u32 = 0;
        while py < h
            invariant
                py <= h,
                r@.len() == 4 * w * py,
                self.wf(),
                w >= 1 && h >= 1,
                x0 + w <= self.width,
                y0 + h <= self.height,
                forall|k: int| 0 <= k < r@.len() ==> r@[k] == tile_byte(
                    self,
                    x0 as int,
                    y0 as int,
                    w as int,
                    h as int,
                    k,
                ),
            decreases h - py,
        {
            let mut px: u32 = 0;
            while px < w
                invariant
                    px <= w,
                    py < h,
                    r@.len() == 4 * w * py + 4 * px,
                    self.wf(),
                    w >= 1 && h >= 1,
                    x0 + w <= self.width,
                    y0 + h <= self.height,
                    forall|k: int| 0 <= k < r@.len() ==> r@[k] == tile_byte(
                        self,
                        x0 as int,
                        y0 as int,
                        w as int,
                        h as int,
                        k,
                    ),
                decreases w - px,
            {
                let sx: u32 = x0 + px;
                let sy: u32 = y0 + py;
                proof {
                    assert((sy as int) * (self.width as int) + sx < (self.width as int) * (
                    self.height as int)) by (nonlinear_arith)
                        requires
                            sx < self.width && sy < self.height && self.width >= 1,
                    ;
                    assert(4 * ((sy as int) * (self.width as int) + sx) + 3 < 4 * (
                    self.width as int) * (self.height as int)) by (nonlinear_arith)
                        requires
                            (sy as int) * (self.width as int) + sx < (self.width as int) * (
                            self.height as int),
                    ;
                }
                let plen: usize = self.pixels.len();
                proof {
                    assert(4 * ((sy as int) * (self.width as int) + sx) + 3 < plen);
                }
                let base: usize = 4 * ((sy as usize) * (self.width as usize) + (sx as usize));
                let ghost old_len = r@.len();
                r.push(self.pixels[base]);
                r.push(self.pixels[base + 1]);
                r.push(self.pixels[base + 2]);
                r.push(255);
                proof {
                    let wi = w as int;
                    let pxi = px as int;
                    let pyi = py as int;
                    let p = pyi * wi + pxi;
                    assert(old_len == 4 * p) by (nonlinear_arith)
                        requires
                            old_len == 4 * wi * pyi + 4 * pxi && p == pyi * wi + pxi,
                    ;
                    assert forall|k: int| old_len <= k < old_len + 4 implies r@[k] == tile_byte(
                        self,
                        x0 as int,
                        y0 as int,
                        wi,
                        h as int,
                        k,
                    ) by {
                        let c = k - 4 * p;
                        assert(k / 4 == p && k % 4 == c) by (nonlinear_arith)
                            requires
                                k == 4 * p + c && 0 <= c < 4 && p >= 0,
                        ;
                        assert(p % wi == pxi && p / wi == pyi) by (nonlinear_arith)
                            requires
                                p == pyi * wi + pxi && 0 <= pxi < wi && pyi >= 0,
                        ;
                        assert(self.pixel_base(x0 + pxi, y0 + pyi) == 4 * ((y0 + pyi) * (
                        self.width as int) + (x0 + pxi)));
                    }
                    assert(r@.len() == 4 * wi * pyi + 4 * (pxi + 1)) by (nonlinear_arith)
                        requires
                            r@.len() == old_len + 4 && old_len == 4 * wi * pyi + 4 * pxi,
                    ;
                }
                px = px + 1;
            }
            proof {
                assert(4 * (w as int) * (py as int) + 4 * (w as int) == 4 * (w as int) * ((
                py as int) + 1)) by (nonlinear_arith);
            }
            py = py + 1;
        }
        r
    }
}

/// True when byte `k` of `img` lies inside the `w` x `h` pixel rectangle
/// whose top-left pixel is at (x0, y0).
pub open spec fn in_tile_rect(img: &PixelImage, x0: int, y0: int, w: int, h: int, k: int) -> bool {
    let p = k / 4;
    let px = p % (img.width as int);
    let py = p / (img.width as int);
    x0 <= px < x0 + w && y0 <= py < y0 + h
}

/// The byte of a `w`-wide tile (four bytes per pixel) that lands on byte `k`
/// of `img` when the tile's top-left pixel is at (x0, y0).
pub open spec fn tile_src_index(img: &PixelImage, x0: int, y0: int, w: int, k: int) -> int {
    let p = k / 4;
    let px = p % (img.width as int);
    let py = p / (img.width as int);
    4 * ((py - y0) * w + (px - x0)) + k % 4
}

/// Byte `k` of `img` after the first `limit` pixels of a tile at (x0, y0)
/// have been written over it, in row-major tile order.
pub open spec fn drawn_upto(
    img: &PixelImage,
    tile: Seq<u8>,
    x0: int,
    y0: int,
    w: int,
    h: int,
    limit: int,
    k: int,
) -> u8 {
    let p = k / 4;
    let px = p % (img.width as int);
    let py = p / (img.width as int);
    let g = (py - y0) * w + (px - x0);
    if x0 <= px < x0 + w && y0 <= py < y0 + h && g < limit {
        tile[4 * g + k % 4]
    } else {
        img.pixels@[k]
    }
}

/// The four bytes of the pixel at (x, y) lie inside the byte vector.
pub proof fn lemma_pixel_byte_range(img: &PixelImage, x: int, y: int)
    requires
        img.wf(),
        0 <= x < img.width,
        0 <= y < img.height,
    ensures
        0 <= img.pixel_base(x, y),
        img.pixel_base(x, y) + 4 <= img.pixels@.len(),
{
    assert(0 <= y * (img.width as int) + x && 4 * (y * (img.width as int) + x) + 4 <= 4 * (
    img.width as int) * (img.height as int)) by (nonlinear_arith)
        requires
            0 <= x < img.width && 0 <= y < img.height,
    ;
}

/// True when every pixel of a tile (stored four bytes per pixel) equals the
/// first pixel.
pub open spec fn tile_uniform(s: Seq<u8>) -> bool {
    forall|k: int| 4 <= k < s.len() ==> #[trigger] s[k] == s[k - 4]
}

/// Decides whether all pixels of a tile are identical.
pub fn is_uniform_tile(tile: &Vec<u8>) -> (r: bool)
    ensures
        r == tile_uniform(tile@),
{
    let mut k: usize = 4;
    if tile.len() < 4 {
        return true;
    }
    while k < tile.len()
        invariant
            4 <= k <= tile@.len(),
            forall|j: int| 4 <= j < k ==> #[trigger] tile@[j] == tile@[j - 4],
        decreases tile.len() - k,
    {
        if tile[k] != tile[k - 4] {
            return false;
        }
        k = k + 1;
    }
    true
}

} // verus!
