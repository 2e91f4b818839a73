//! The cell pipeline: cutting the resampled image into quantized sections,
//! matching each against the font, and assembling the final block list; and
//! the reverse direction, rendering a block list back to a raster.

use vstd::prelude::*;
use crate::cga::{cga_color_spec, cga_nearest_spec, find_closest_cga_color};
use crate::font::{
    candidates, excluded, match_fold, render_byte, restricted_list, Font, Match,
};
use crate::quant::liq_quantize_pair;
use crate::raster::{
    in_tile_rect, lanczos_resized, resize_lanczos, tile_byte, tile_src_index, tile_uniform,
    PixelImage,
};

verus! {

/// The bytes of the `w` x `h` tile at (x0, y0) of a raster held as the byte
/// sequence `pixels` with row width `imgw`, alpha forced to opaque.
pub open spec fn grid_tile(pixels: Seq<u8>, imgw: int, x0: int, y0: int, w: int, h: int) -> Seq<
    u8,
> {
    Seq::new(
        (4 * w * h) as nat,
        |k: int|
            {
                let p = k / 4;
                let c = k % 4;
                let px = x0 + p % w;
                let py = y0 + p / w;
                if c == 3 {
                    255u8
                } else {
                    pixels[4 * (py * imgw + px) + c]
                }
            },
    )
}

/// The pixel bytes of `image` resampled for a grid of `columns` x `rows`
/// cells of `width` x `height` pixels each.
pub open spec fn resized_pixels(
    image: &PixelImage,
    columns: int,
    width: int,
    height: int,
    rows: int,
) -> Seq<u8> {
    lanczos_resized(
        image.pixels@,
        image.width,
        image.height,
        (width * columns) as u32,
        (height * rows) as u32,
    )
}

/// The tile of grid cell `k` of the resampled image, in row-major order.
pub open spec fn cell_tile(
    image: &PixelImage,
    columns: int,
    width: int,
    height: int,
    rows: int,
    k: int,
) -> Seq<u8> {
    grid_tile(
        resized_pixels(image, columns, width, height, rows),
        width * columns,
        (k % columns) * width,
        (k / columns) * height,
        width,
        height,
    )
}

/// A cell whose resampled tile is uniform becomes a full-block cell painted
/// in that tile's colour.
pub open spec fn uniform_cell_ok(b: Block, t: Seq<u8>) -> bool {
    tile_uniform(t) ==> {
        &&& b.fg@[0] == t[0]
        &&& b.fg@[1] == t[1]
        &&& b.fg@[2] == t[2]
        &&& b.bg is None
    }
}

/// One cell-sized piece of the resampled image: a palette of one or two
/// colours and one palette index per pixel, with its grid position.
pub struct TextSection {
    pub pixels: Vec<u8>,
    pub palette: Vec<[u8; 4]>,
    pub width: u32,
    pub char_height: u32,
    pub columns: u32,
    pub rows: u32,
    pub row: u32,
    pub column: u32,
}

impl TextSection {
    /// The palette holds one or two fully opaque colours, there is one
    /// in-range index per pixel, and the position lies inside the grid.
    pub open spec fn wf(&self) -> bool {
        &&& 1 <= self.palette@.len() <= 2
        &&& self.pixels@.len() == self.width * self.char_height
        &&& forall|k: int| 0 <= k < self.pixels@.len() ==> (#[trigger] self.pixels@[k] as int)
            < self.palette@.len()
        &&& forall|j: int| 0 <= j < self.palette@.len() ==> (#[trigger] self.palette@[j])@[3]
            == 255
        &&& self.column < self.columns
        &&& self.row < self.rows
    }
}

/// What `as_text_sections` promises of the section at grid index `k`, given
/// the resampled pixel bytes: well-formedness, the grid bookkeeping, and the
/// single-colour fast path for uniform tiles.
pub open spec fn section_ok(
    s: TextSection,
    resized: Seq<u8>,
    columns: int,
    rows: int,
    width: int,
    height: int,
    k: int,
) -> bool {
    let tile = grid_tile(resized, width * columns, (k % columns) * width, (k / columns) * height,
        width, height);
    &&& s.wf()
    &&& s.width == width
    &&& s.char_height == height
    &&& s.columns == columns
    &&& s.rows == rows
    &&& s.column == k % columns
    &&& s.row == k / columns
    &&& (tile_uniform(tile) ==> {
        &&& s.palette@.len() == 1
        &&& (s.palette@[0])@[0] == tile[0]
        &&& (s.palette@[0])@[1] == tile[1]
        &&& (s.palette@[0])@[2] == tile[2]
        &&& forall|i: int| 0 <= i < s.pixels@.len() ==> s.pixels@[i] == 0u8
    })
}

impl PixelImage {
    /// Resamples the image to `columns` columns of `width` x `height` cells
    /// (preserving aspect, rounding rows up) and cuts it into quantized
    /// sections in row-major order.  A tile whose pixels are all identical
    /// bypasses the quantizer and gets a single-entry palette.  `None`
    /// reports a failure of the outside quantizer.
    pub fn as_text_sections(&self, columns: u32, width: u32, height: u32) -> (r: Option<
        Vec<TextSection>,
    >)
        requires
            self.wf(),
            self.width >= 1,
            self.height >= 1,
            1 <= columns <= 0xFFFF,
            1 <= width <= 0xFF,
            1 <= height <= 0xFF,
            self.rows_spec(columns as int, width as int, height as int) <= 0xFFFF,
            4 * ((width as int) * (columns as int)) * ((height as int) * self.rows_spec(
                columns as int,
                width as int,
                height as int,
            )) <= usize::MAX,
        ensures
            match r {
                Option::Some(secs) => {
                    let rows = self.rows_spec(columns as int, width as int, height as int);
                    let resized = lanczos_resized(
                        self.pixels@,
                        self.width,
                        self.height,
                        (width * columns) as u32,
                        (height * rows) as u32,
                    );
                    &&& secs@.len() == columns * rows
                    &&& forall|k: int| 0 <= k < secs@.len() ==> section_ok(
                        #[trigger] secs@[k],
                        resized,
                        columns as int,
                        rows,
                        width as int,
                        height as int,
                        k,
                    )
                },
                Option::None => true,
            },
            r is None ==> exists|k: int|
                0 <= k < (columns as int) * self.rows_spec(
                    columns as int,
                    width as int,
                    height as int,
                ) && !tile_uniform(
                    #[trigger] cell_tile(
                        self,
                        columns as int,
                        width as int,
                        height as int,
                        self.rows_spec(columns as int, width as int, height as int),
                        k,
                    ),
                ),
            self.width == width * columns && self.height == height * self.rows_spec(
                columns as int,
                width as int,
                height as int,
            ) ==> resized_pixels(
                self,
                columns as int,
                width as int,
                height as int,
                self.rows_spec(columns as int, width as int, height as int),
            ) == self.pixels@,
    {
        let rows: u32 = self.calculate_rows(columns, width, height);
        proof {
            assert((width as int) * (columns as int) <= 0xFF * 0xFFFF && (height as int) * (
            rows as int) <= 0xFF * 0xFFFF) by (nonlinear_arith)
                requires
                    width <= 0xFF && columns <= 0xFFFF && height <= 0xFF && rows <= 0xFFFF,
            ;
        }
        let tw: u32 = width * columns;
        let th: u32 = height * rows;
        proof {
            assert(tw >= 1 && th >= 1) by (nonlinear_arith)
                requires
                    tw == width * columns && th == height * rows && width >= 1 && columns >= 1
                        && height >= 1 && rows >= 1,
            ;
            assert(4 * (tw as int) * (th as int) == 4 * ((width as int) * (columns as int)) * ((
            height as int) * (rows as int))) by (nonlinear_arith)
                requires
                    tw == width * columns && th == height * rows,
            ;
        }
        let resized = resize_lanczos(self, tw, th);
        let ghost rp = resized.pixels@;
        let mut secs: Vec<TextSection> = Vec::new();
        let mut rr: u32 = 0;
        while rr < rows
            invariant
                rr <= rows,
                self.wf(),
                resized.wf(),
                resized.width == tw,
                resized.height == th,
                resized.pixels@ == rp,
                rp == lanczos_resized(self.pixels@, self.width, self.height, tw, th),
                (self.width == tw && self.height == th) ==> rp == self.pixels@,
                tw == width * columns,
                th == height * rows,
                1 <= columns <= 0xFFFF,
                1 <= width <= 0xFF,
                1 <= height <= 0xFF,
                1 <= rows <= 0xFFFF,
                rows == self.rows_spec(columns as int, width as int, height as int),
                secs@.len() == rr * columns,
                forall|k: int| 0 <= k < secs@.len() ==> section_ok(
                    #[trigger] secs@[k],
                    rp,
                    columns as int,
                    rows as int,
                    width as int,
                    height as int,
                    k,
                ),
            decreases rows - rr,
        {
            let mut cc: u32 = 0;
            while cc < columns
                invariant
                    cc <= columns,
                    rr < rows,
                    self.wf(),
                    resized.wf(),
                    resized.width == tw,
                    resized.height == th,
                    resized.pixels@ == rp,
                    rp == lanczos_resized(self.pixels@, self.width, self.height, tw, th),
                    (self.width == tw && self.height == th) ==> rp == self.pixels@,
                    tw == width * columns,
                    th == height * rows,
                    1 <= columns <= 0xFFFF,
                    1 <= width <= 0xFF,
                    1 <= height <= 0xFF,
                    1 <= rows <= 0xFFFF,
                    rows == self.rows_spec(columns as int, width as int, height as int),
                    secs@.len() == rr * columns + cc,
                    forall|k: int| 0 <= k < secs@.len() ==> section_ok(
                        #[trigger] secs@[k],
                        rp,
                        columns as int,
                        rows as int,
                        width as int,
                        height as int,
                        k,
                    ),
                decreases columns - cc,
            {
                proof {
                    assert((cc as int) * (width as int) + width <= (columns as int) * (
                    width as int) && (rr as int) * (height as int) + height <= (rows as int) * (
                    height as int)) by (nonlinear_arith)
                        requires
                            cc < columns && rr < rows && width >= 1 && height >= 1,
                    ;
                    assert((columns as int) * (width as int) == (width as int) * (columns as int)
                        && (rows as int) * (height as int) == (height as int) * (rows as int))
                        by (nonlinear_arith);
                }
                let x0: u32 = cc * width;
                let y0: u32 = rr * height;
                let tile: Vec<u8> = resized.extract_tile(x0, y0, width, height);
                let ghost k0 = secs@.len() as int;
                proof {
                    assert(tile@ =~= grid_tile(rp, tw as int, x0 as int, y0 as int, width as int,
                        height as int));
                    assert(k0 == (rr as int) * (columns as int) + cc && (k0 % (columns as int))
                        == cc && (k0 / (columns as int)) == rr) by (nonlinear_arith)
                        requires
                            k0 == (rr as int) * (columns as int) + cc && 0 <= cc < columns
                                && rr >= 0,
                    ;
                }
                let section: TextSection;
                if crate::raster::is_uniform_tile(&tile) {
                    proof {
                        assert(4 * (width as int) * (height as int) >= 4 && (width as int) * (
                        height as int) >= 1) by (nonlinear_arith)
                            requires
                                width >= 1 && height >= 1,
                        ;
                    }
                    let mut palette: Vec<[u8; 4]> = Vec::new();
                    palette.push([tile[0], tile[1], tile[2], 255]);
                    proof {
                        assert((width as int) * (height as int) <= 0xFF * 0xFF)
                            by (nonlinear_arith)
                            requires
                                width <= 0xFF && height <= 0xFF,
                        ;
                    }
                    let n: usize = (width as usize) * (height as usize);
                    let mut indices: Vec<u8> = Vec::new();
                    let mut t: usize = 0;
                    while t < n
                        invariant
                            t <= n,
                            indices@.len() == t,
                            forall|i: int| 0 <= i < indices@.len() ==> indices@[i] == 0u8,
                        decreases n - t,
                    {
                        indices.push(0);
                        t = t + 1;
                    }
                    proof {
                        assert(4 * (width as int) * (height as int) >= 4 && (width as int) * (
                        height as int) >= 1) by (nonlinear_arith)
                            requires
                                width >= 1 && height >= 1,
                        ;
                    }
                    section = TextSection {
                        pixels: indices,
                        palette,
                        width,
                        char_height: height,
                        columns,
                        rows,
                        row: rr,
                        column: cc,
                    };
                } else {
                    match liq_quantize_pair(&tile, width, height) {
                        Option::None => {
                            proof {
                                assert(k0 < (columns as int) * (rows as int))
                                    by (nonlinear_arith)
                                    requires
                                        k0 == (rr as int) * (columns as int) + cc && cc < columns
                                            && rr < rows && columns >= 1,
                                ;
                                assert(!tile_uniform(
                                    cell_tile(
                                        self,
                                        columns as int,
                                        width as int,
                                        height as int,
                                        rows as int,
                                        k0,
                                    ),
                                ));
                            }
                            return Option::None;
                        },
                        Option::Some(pq) => {
                            let (pal0, indices) = pq;
                            let mut palette: Vec<[u8; 4]> = Vec::new();
                            let mut t: usize = 0;
                            while t < pal0.len()
                                invariant
                                    t <= pal0@.len(),
                                    palette@.len() == t,
                                    forall|i: int| 0 <= i < palette@.len() ==> (
                                    #[trigger] palette@[i])@[3] == 255,
                                decreases pal0@.len() - t,
                            {
                                let e = pal0[t];
                                palette.push([e[0], e[1], e[2], 255]);
                                t = t + 1;
                            }
                            section = TextSection {
                                pixels: indices,
                                palette,
                                width,
                                char_height: height,
                                columns,
                                rows,
                                row: rr,
                                column: cc,
                            };
                        },
                    }
                }
                secs.push(section);
                cc = cc + 1;
            }
            proof {
                assert((rr as int) * (columns as int) + columns == ((rr as int) + 1) * (
                columns as int)) by (nonlinear_arith);
            }
            rr = rr + 1;
        }
        proof {
            assert((rows as int) * (columns as int) == (columns as int) * (rows as int))
                by (nonlinear_arith);
        }
        Option::Some(secs)
    }
}

/// One output cell: colours, CGA indices, codepoint and grid position.
#[derive(Clone, Copy, Debug)]
pub struct Block {
    pub fg: [u8; 4],
    pub bg: Option<[u8; 4]>,
    pub cga_fg: u8,
    pub cga_bg: Option<u8>,
    pub codepoint: u8,
    pub column: u32,
    pub row: u32,
}

/// What `convert_image` promises of the block at grid index `k`.
pub open spec fn block_ok(b: Block, columns: int, rows: int, k: int, restrict: bool) -> bool {
    &&& b.column == k % columns
    &&& b.row == k / columns
    &&& b.column < columns
    &&& b.row < rows
    &&& !excluded(b.codepoint)
    &&& b.cga_fg < 16
    &&& b.fg@[3] == 255
    &&& b.cga_fg as int == cga_nearest_spec((b.fg@[0], b.fg@[1], b.fg@[2]))
    &&& (b.bg is None ==> b.codepoint == 219 && b.cga_bg is None)
    &&& (b.bg is Some ==> b.cga_bg is Some)
    &&& (match b.cga_bg {
        Option::Some(i) => i < 16,
        Option::None => true,
    })
    &&& (restrict ==> restricted_list().contains(b.codepoint))
}

/// Turns one quantized section into its output block.  A single-colour
/// section becomes a full-block cell with no background; a two-colour
/// section is matched against the font and the palette roles follow the
/// match.  The CGA indices are the nearest palette entries of the chosen
/// colours.
pub fn assemble_block(section: &TextSection, font: &Font, restrict: bool) -> (b: Block)
    requires
        section.wf(),
        font.wf(),
        section.width == font.width,
        section.char_height == font.height,
    ensures
        b.column == section.column,
        b.row == section.row,
        !excluded(b.codepoint),
        b.cga_fg < 16,
        b.fg@[3] == 255,
        b.cga_fg as int == cga_nearest_spec((b.fg@[0], b.fg@[1], b.fg@[2])),
        b.bg is None <==> section.palette@.len() == 1,
        (match b.cga_bg {
            Option::Some(i) => i < 16,
            Option::None => true,
        }),
        restrict ==> restricted_list().contains(b.codepoint),
        section.palette@.len() == 1 ==> {
            &&& b.fg == section.palette@[0]
            &&& b.codepoint == 219
            &&& b.cga_bg is None
        },
        section.palette@.len() == 2 ==> {
            let m = match_fold(font, section.pixels@, candidates(restrict)).0;
            &&& b.codepoint == m.codepoint
            &&& b.fg == section.palette@[m.fg as int]
            &&& b.bg == Option::Some(section.palette@[m.bg as int])
            &&& b.cga_bg == Option::Some(
                (cga_nearest_spec(
                    ((section.palette@[m.bg as int])@[0], (section.palette@[m.bg as int])@[1], (
                    section.palette@[m.bg as int])@[2]),
                ) as u8),
            )
        },
{
    if section.palette.len() == 1 {
        let fg = section.palette[0];
        let cga_fg = find_closest_cga_color(fg);
        proof {
            assert(restricted_list()[4] == 219u8);
        }
        Block {
            fg,
            bg: Option::None,
            cga_fg,
            cga_bg: Option::None,
            codepoint: 219,
            column: section.column,
            row: section.row,
        }
    } else {
        proof {
            assert(section.pixels@.len() == font.size) by (nonlinear_arith)
                requires
                    section.pixels@.len() == section.width * section.char_height && font.size
                        == font.width * font.height && section.width == font.width
                        && section.char_height == font.height,
            ;
        }
        let m: Match = font.find_closest_bitmask(section.pixels.as_slice(), restrict);
        let fg = section.palette[m.fg as usize];
        let bg = section.palette[m.bg as usize];
        let cga_fg = find_closest_cga_color(fg);
        let cga_bg = find_closest_cga_color(bg);
        Block {
            fg,
            bg: Option::Some(bg),
            cga_fg,
            cga_bg: Option::Some(cga_bg),
            codepoint: m.codepoint,
            column: section.column,
            row: section.row,
        }
    }
}

/// Converts an image to its block list: resample to the cell grid, quantize
/// each tile, match glyphs, and emit one block per cell in row-major order.
/// `None` reports a failure of the outside quantizer.
pub fn convert_image(image: &PixelImage, font: &Font, columns: u32, restrict: bool) -> (r: Option<
    Vec<Block>,
>)
    requires
        image.wf(),
        image.width >= 1,
        image.height >= 1,
        font.wf(),
        1 <= columns <= 0xFFFF,
        image.rows_spec(columns as int, font.width as int, font.height as int) <= 0xFFFF,
        4 * ((font.width as int) * (columns as int)) * ((font.height as int) * image.rows_spec(
            columns as int,
            font.width as int,
            font.height as int,
        )) <= usize::MAX,
    ensures
        match r {
            Option::Some(blocks) => {
                let rows = image.rows_spec(columns as int, font.width as int, font.height as int);
                &&& blocks@.len() == columns * rows
                &&& forall|k: int| 0 <= k < blocks@.len() ==> block_ok(
                    #[trigger] blocks@[k],
                    columns as int,
                    rows,
                    k,
                    restrict,
                )
                &&& forall|k: int| 0 <= k < blocks@.len() ==> uniform_cell_ok(
                    blocks@[k],
                    #[trigger] cell_tile(
                        image,
                        columns as int,
                        font.width as int,
                        font.height as int,
                        rows,
                        k,
                    ),
                )
            },
            Option::None => true,
        },
        ({
            let rows = image.rows_spec(columns as int, font.width as int, font.height as int);
            (forall|k: int|
                0 <= k < (columns as int) * rows ==> tile_uniform(
                    #[trigger] cell_tile(
                        image,
                        columns as int,
                        font.width as int,
                        font.height as int,
                        rows,
                        k,
                    ),
                )) ==> r is Some
        }),
        ({
            let rows = image.rows_spec(columns as int, font.width as int, font.height as int);
            image.width == font.width * columns && image.height == font.height * rows
                ==> resized_pixels(
                image,
                columns as int,
                font.width as int,
                font.height as int,
                rows,
            ) == image.pixels@
        }),
{
    let ghost rows = image.rows_spec(columns as int, font.width as int, font.height as int);
    match image.as_text_sections(columns, font.width, font.height) {
        Option::None => {
            proof {
                if forall|k: int|
                    0 <= k < (columns as int) * rows ==> tile_uniform(
                        #[trigger] cell_tile(
                            image,
                            columns as int,
                            font.width as int,
                            font.height as int,
                            rows,
                            k,
                        ),
                    ) {
                    let k = choose|k: int|
                        0 <= k < (columns as int) * rows && !tile_uniform(
                            #[trigger] cell_tile(
                                image,
                                columns as int,
                                font.width as int,
                                font.height as int,
                                rows,
                                k,
                            ),
                        );
                    assert(tile_uniform(
                        cell_tile(
                            image,
                            columns as int,
                            font.width as int,
                            font.height as int,
                            rows,
                            k,
                        ),
                    ));
                }
            }
            Option::None
        },
        Option::Some(secs) => {
            let mut blocks: Vec<Block> = Vec::new();
            let mut k: usize = 0;
            while k < secs.len()
                invariant
                    k <= secs@.len(),
                    font.wf(),
                    1 <= columns,
                    secs@.len() == columns * rows,
                    blocks@.len() == k,
                    forall|j: int| 0 <= j < secs@.len() ==> section_ok(
                        #[trigger] secs@[j],
                        lanczos_resized(
                            image.pixels@,
                            image.width,
                            image.height,
                            (font.width * columns) as u32,
                            (font.height * rows) as u32,
                        ),
                        columns as int,
                        rows,
                        font.width as int,
                        font.height as int,
                        j,
                    ),
                    forall|j: int| 0 <= j < blocks@.len() ==> block_ok(
                        #[trigger] blocks@[j],
                        columns as int,
                        rows,
                        j,
                        restrict,
                    ),
                    forall|j: int| 0 <= j < blocks@.len() ==> uniform_cell_ok(
                        blocks@[j],
                        #[trigger] cell_tile(
                            image,
                            columns as int,
                            font.width as int,
                            font.height as int,
                            rows,
                            j,
                        ),
                    ),
                decreases secs@.len() - k,
            {
                let b = assemble_block(&secs[k], font, restrict);
                proof {
                    assert(0 <= (k as int) % (columns as int) < columns && 0 <= (k as int) / (
                    columns as int)) by (nonlinear_arith)
                        requires
                            columns >= 1 && k >= 0,
                    ;
                    assert((k as int) / (columns as int) < rows) by (nonlinear_arith)
                        requires
                            columns >= 1 && 0 <= (k as int) < columns * rows,
                    ;
                }
                blocks.push(b);
                k = k + 1;
            }
            Option::Some(blocks)
        },
    }
}

/// Component `c` of the CGA entry `i`, as an opaque RGBA colour.
pub open spec fn cga_comp(i: int, c: int) -> u8 {
    if c == 0 {
        cga_color_spec(i).0
    } else if c == 1 {
        cga_color_spec(i).1
    } else if c == 2 {
        cga_color_spec(i).2
    } else {
        255u8
    }
}

/// The `j`-th byte of the RGBA tile that renders block `b`: its truecolor
/// colours when `truecolor` is set, its CGA palette entries otherwise, and
/// opaque black where the background is absent.
pub open spec fn block_pixel_byte(font: &Font, b: Block, truecolor: bool, j: int) -> u8 {
    let p = j / 4;
    let c = j % 4;
    if font.glyph_bit(b.codepoint as int, p) == 1 {
        if truecolor {
            b.fg@[c]
        } else {
            cga_comp(b.cga_fg as int, c)
        }
    } else {
        if truecolor {
            match b.bg {
                Option::Some(col) => col@[c],
                Option::None => if c == 3 { 255u8 } else { 0u8 },
            }
        } else {
            match b.cga_bg {
                Option::Some(i) => cga_comp(i as int, c),
                Option::None => if c == 3 { 255u8 } else { 0u8 },
            }
        }
    }
}

/// The byte of the output raster on which byte `j` of block `b`'s rendered
/// tile lands, for a grid of `columns` columns.
pub open spec fn block_target_index(b: Block, font: &Font, columns: int, j: int) -> int {
    let p = j / 4;
    let dx = p % (font.width as int);
    let dy = p / (font.width as int);
    4 * ((b.row * font.height + dy) * (columns * font.width) + (b.column * font.width + dx)) + j
        % 4
}

/// Where byte `j` of block `b`'s tile lands: its position decomposed against
/// the output raster's row width.
proof fn lemma_target_decomp(b: Block, font: &Font, columns: int, rows: int, j: int)
    requires
        font.wf(),
        0 <= j < 4 * font.size,
        b.column < columns,
        b.row < rows,
        columns >= 1,
    ensures
        ({
            let t = block_target_index(b, font, columns, j);
            let wd = columns * (font.width as int);
            &&& t % 4 == j % 4
            &&& (t / 4) % wd == b.column * font.width + (j / 4) % (font.width as int)
            &&& (t / 4) / wd == b.row * font.height + (j / 4) / (font.width as int)
            &&& b.column * font.width <= (t / 4) % wd < b.column * font.width + font.width
            &&& b.row * font.height <= (t / 4) / wd < b.row * font.height + font.height
            &&& 0 <= t < 4 * wd * (rows * font.height)
        }),
{
    let fw = font.width as int;
    let fh = font.height as int;
    let p = j / 4;
    let dx = p % fw;
    let dy = p / fw;
    let wd = columns * fw;
    let px = b.column * fw + dx;
    let py = b.row * fh + dy;
    let t = block_target_index(b, font, columns, j);
    assert(0 <= p < fw * fh && 0 <= j % 4 < 4) by (nonlinear_arith)
        requires
            p == j / 4 && 0 <= j < 4 * (fw * fh),
    ;
    assert(0 <= dx < fw && 0 <= dy < fh) by (nonlinear_arith)
        requires
            dx == p % fw && dy == p / fw && 0 <= p < fw * fh && fw >= 1,
    ;
    assert(0 <= px < wd) by (nonlinear_arith)
        requires
            px == b.column * fw + dx && 0 <= dx < fw && 0 <= b.column < columns && wd == columns
                * fw && fw >= 1,
    ;
    assert(0 <= py < rows * fh) by (nonlinear_arith)
        requires
            py == b.row * fh + dy && 0 <= dy < fh && 0 <= b.row < rows && fh >= 1,
    ;
    assert(t == 4 * (py * wd + px) + j % 4);
    assert(t / 4 == py * wd + px && t % 4 == j % 4) by (nonlinear_arith)
        requires
            t == 4 * (py * wd + px) + j % 4 && 0 <= j % 4 < 4 && py * wd + px >= 0,
    ;
    assert((py * wd + px) % wd == px && (py * wd + px) / wd == py) by (nonlinear_arith)
        requires
            0 <= px < wd && py >= 0 && wd >= 1,
    ;
    assert(4 * (py * wd + px) + 4 <= 4 * wd * (rows * fh)) by (nonlinear_arith)
        requires
            0 <= px < wd && 0 <= py < rows * fh && wd >= 1,
    ;
}

/// Renders a block list back to a pixel raster.  The raster is `columns`
/// cells wide and `len / columns` cells tall; each block's cell shows its
/// glyph in its truecolor or CGA colours.  Unset cells stay transparent
/// black.
#[verifier::rlimit(100)]
pub fn convert_blocks_to_image(blocks: &Vec<Block>, font: &Font, columns: u32, truecolor: bool) -> (
    img: PixelImage)
    requires
        font.wf(),
        1 <= columns <= 0xFFFF,
        (blocks@.len() as int) % (columns as int) == 0,
        (blocks@.len() as int) / (columns as int) <= 0xFFFF,
        forall|k: int| 0 <= k < blocks@.len() ==> (#[trigger] blocks@[k]).column < columns
            && blocks@[k].row < (blocks@.len() as int) / (columns as int) && blocks@[k].cga_fg < 16 && (
        match blocks@[k].cga_bg {
            Option::Some(i) => i < 16,
            Option::None => true,
        }),
        forall|k1: int, k2: int| 0 <= k1 < k2 < blocks@.len() ==> !((#[trigger] blocks@[k1]).column
            == (#[trigger] blocks@[k2]).column && blocks@[k1].row == blocks@[k2].row),
        4 * ((columns as int) * (font.width as int)) * (((blocks@.len() as int) / (columns as int)) * (
        font.height as int)) <= usize::MAX,
    ensures
        img.width == columns * font.width,
        img.height == ((blocks@.len() as int) / (columns as int)) * font.height,
        img.wf(),
        forall|k: int, j: int|
            0 <= k < blocks@.len() && 0 <= j < 4 * font.size ==> img.pixels@[block_target_index(
                blocks@[k],
                font,
                columns as int,
                j,
            )] == #[trigger] block_pixel_byte(font, blocks@[k], truecolor, j),
{
    let ghost rows_i = (blocks@.len() as int) / (columns as int);
    let rows: u32 = (blocks.len() / (columns as usize)) as u32;
    proof {
        assert((columns as int) * (font.width as int) <= 0xFFFF * 8 && (rows_i) * (
        font.height as int) <= 0xFFFF * 16) by (nonlinear_arith)
            requires
                columns <= 0xFFFF && font.width == 8 && (font.height == 8 || font.height == 16)
                    && 0 <= rows_i <= 0xFFFF,
        ;
    }
    let tw: u32 = columns * font.width;
    let th: u32 = rows * font.height;
    let mut img: PixelImage;
    if blocks.len() == 0 {
        img = PixelImage { width: tw, height: 0, pixels: Vec::new() };
        proof {
            assert(rows_i == 0);
            assert(4 * (tw as int) * 0 == 0) by (nonlinear_arith);
            assert(rows_i * (font.height as int) == 0) by (nonlinear_arith)
                requires
                    rows_i == 0,
            ;
        }
        return img;
    }
    proof {
        assert(rows_i >= 1) by (nonlinear_arith)
            requires
                rows_i == (blocks@.len() as int) / (columns as int) && (blocks@.len() as int) % (columns as int)
                    == 0 && blocks@.len() >= 1 && columns >= 1,
        ;
        assert(tw >= 1 && th >= 1 && 4 * (tw as int) * (th as int) == 4 * ((columns as int) * (
        font.width as int)) * (rows_i * (font.height as int))) by (nonlinear_arith)
            requires
                tw == columns * font.width && th == rows_i * font.height && columns >= 1
                    && font.width == 8 && rows_i >= 1 && (font.height == 8 || font.height == 16),
        ;
    }
    img = PixelImage::new_black(tw, th);
    let mut i: usize = 0;
    while i < blocks.len()
        invariant
            i <= blocks@.len(),
            font.wf(),
            1 <= columns <= 0xFFFF,
            img.width == tw,
            img.height == th,
            img.wf(),
            tw == columns * font.width,
            th == rows * font.height,
            rows == rows_i,
            rows_i == (blocks@.len() as int) / (columns as int),
            blocks@.len() >= 1,
            forall|k: int| 0 <= k < blocks@.len() ==> (#[trigger] blocks@[k]).column < columns
                && blocks@[k].row < rows_i && blocks@[k].cga_fg < 16 && (match blocks@[k].cga_bg {
                Option::Some(ci) => ci < 16,
                Option::None => true,
            }),
            forall|k1: int, k2: int| 0 <= k1 < k2 < blocks@.len() ==> !((
            #[trigger] blocks@[k1]).column == (#[trigger] blocks@[k2]).column && blocks@[k1].row
                == blocks@[k2].row),
            forall|k: int, j: int|
                0 <= k < i && 0 <= j < 4 * font.size ==> img.pixels@[block_target_index(
                    blocks@[k],
                    font,
                    columns as int,
                    j,
                )] == #[trigger] block_pixel_byte(font, blocks@[k], truecolor, j),
        decreases blocks@.len() - i,
    {
        let b = blocks[i];
        let fgc: [u8; 4] = if truecolor {
            b.fg
        } else {
            crate::cga::get_cga_color(b.cga_fg)
        };
        let bgc: Option<[u8; 4]> = if truecolor {
            b.bg
        } else {
            match b.cga_bg {
                Option::Some(ci) => Option::Some(crate::cga::get_cga_color(ci)),
                Option::None => Option::None,
            }
        };
        let cp = font.render_codepoint(b.codepoint, fgc, bgc);
        proof {
            assert(4 * (font.width as int) * (font.height as int) == 4 * (font.size as int)
                && font.size >= 64) by (nonlinear_arith)
                requires
                    font.size == font.width * font.height && font.width == 8 && (font.height == 8
                        || font.height == 16),
            ;
            assert((b.column as int) * (font.width as int) + font.width <= (columns as int) * (
            font.width as int) && (b.row as int) * (font.height as int) + font.height <= rows_i * (
            font.height as int)) by (nonlinear_arith)
                requires
                    b.column < columns && b.row < rows_i && font.width >= 1 && font.height >= 1,
            ;
        }
        let x: u32 = b.column * font.width;
        let y: u32 = b.row * font.height;
        let ghost img_before = img;
        font.draw_codepoint(&mut img, &cp, x, y);
        proof {
            let cols_i = columns as int;
            let fw = font.width as int;
            let fh = font.height as int;
            let wd = cols_i * fw;
            assert(tw as int == wd);
            // the new block's bytes land where its target index says
            assert forall|j: int| 0 <= j < 4 * font.size implies img.pixels@[block_target_index(
                blocks@[i as int],
                font,
                cols_i,
                j,
            )] == #[trigger] block_pixel_byte(font, blocks@[i as int], truecolor, j) by {
                lemma_target_decomp(b, font, cols_i, rows_i, j);
                let t = block_target_index(b, font, cols_i, j);
                assert(in_tile_rect(&img_before, x as int, y as int, fw, fh, t));
                assert(tile_src_index(&img_before, x as int, y as int, fw, t) == 4 * ((j / 4) / fw
                    * fw + (j / 4) % fw) + j % 4) by (nonlinear_arith)
                    requires
                        tile_src_index(&img_before, x as int, y as int, fw, t) == 4 * (((t / 4) / (
                        cols_i * fw) - y) * fw + ((t / 4) % (cols_i * fw) - x)) + t % 4 && (t / 4)
                            / (cols_i * fw) == y + (j / 4) / fw && (t / 4) % (cols_i * fw) == x + (
                        j / 4) % fw && t % 4 == j % 4,
                ;
                assert(4 * ((j / 4) / fw * fw + (j / 4) % fw) + j % 4 == j) by (nonlinear_arith)
                    requires
                        j >= 0 && fw >= 1,
                ;
                assert(cp.bytes@[j] == render_byte(font, b.codepoint, fgc, bgc, j));
                assert(render_byte(font, b.codepoint, fgc, bgc, j) == block_pixel_byte(
                    font,
                    b,
                    truecolor,
                    j,
                ));
            }
            // earlier blocks' bytes lie outside the cell just drawn
            assert forall|k: int, j: int| 0 <= k < i && 0 <= j < 4 * font.size implies img.pixels@[
            block_target_index(blocks@[k], font, cols_i, j)] == #[trigger] block_pixel_byte(
                font,
                blocks@[k],
                truecolor,
                j,
            ) by {
                let bk = blocks@[k];
                lemma_target_decomp(bk, font, cols_i, rows_i, j);
                let t = block_target_index(bk, font, cols_i, j);
                if in_tile_rect(&img_before, x as int, y as int, fw, fh, t) {
                    let px = (t / 4) % wd;
                    let py = (t / 4) / wd;
                    assert(px / fw == b.column && px / fw == bk.column) by (nonlinear_arith)
                        requires
                            (b.column as int) * fw <= px < (b.column as int) * fw + fw && (
                            bk.column as int) * fw <= px < (bk.column as int) * fw + fw && fw >= 1,
                    ;
                    assert(py / fh == b.row && py / fh == bk.row) by (nonlinear_arith)
                        requires
                            (b.row as int) * fh <= py < (b.row as int) * fh + fh && (bk.row as int)
                                * fh <= py < (bk.row as int) * fh + fh && fh >= 1,
                    ;
                    assert(false);
                }
            }
        }
        i = i + 1;
    }
    img
}

} // verus!
