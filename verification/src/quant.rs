//! Reduction of a tile of RGBA pixels to a palette of at most two colours
//! plus one palette index per pixel, through the outside median-cut library.

use vstd::prelude::*;

verus! {

/// Relies on `imagequant`: `Attributes::set_max_colors(2)` caps the palette
/// at two entries, `quantize` derives the palette, and
/// `QuantizationResult::remapped` returns that palette together with one
/// index byte per input pixel, each index pointing into the palette.  Every
/// error of the library is reported as `None`.
#[verifier::external_body]
pub(crate) fn liq_quantize_pair(pixels: &Vec<u8>, width: u32, height: u32) -> (r: Option<
    (Vec<[u8; 4]>, Vec<u8>),
>)
    requires
        width >= 1,
        height >= 1,
        pixels@.len() == 4 * width * height,
    ensures
        match r {
            Option::Some(pr) => {
                &&& 1 <= pr.0@.len() <= 2
                &&& pr.1@.len() == (width as int) * (height as int)
                &&& forall|k: int| 0 <= k < pr.1@.len() ==> (#[trigger] pr.1@[k] as int)
                    < pr.0@.len()
            },
            Option::None => true,
        },
{
    let px: Vec<imagequant::RGBA> = pixels.chunks_exact(4).map(
        |c| imagequant::RGBA::new(c[0], c[1], c[2], c[3]),
    ).collect();
    let mut liq = imagequant::new();
    liq.set_speed(1).ok()?;
    liq.set_max_colors(2).ok()?;
    let mut img = liq.new_image(px, width as usize, height as usize, Default::default()).ok()?;
    let (pal, idx) = liq.quantize(&mut img).ok()?.remapped(&mut img).ok()?;
    Some((pal.iter().map(|c| [c.r, c.g, c.b, c.a]).collect(), idx))
}

} // verus!
