//! The 16-colour CGA palette and the perceptual mapping of an arbitrary
//! 24-bit sRGB colour onto its nearest palette entry.
//!
//! Distances are measured in the Oklab colour space.  The outside conversion
//! returns its coordinates as IEEE 754 bit patterns; those are decoded here
//! into signed fixed-point integers, and the squared Euclidean distance is
//! computed and compared entirely in verified integer arithmetic.

use vstd::prelude::*;

verus! {

/// The historical IBM CGA palette, indexed 0 to 15.
pub open spec fn cga_color_spec(i: int) -> (u8, u8, u8) {
    if i == 0 { (0, 0, 0) }
    else if i == 1 { (0, 0, 170) }
    else if i == 2 { (0, 170, 0) }
    else if i == 3 { (0, 170, 170) }
    else if i == 4 { (170, 0, 0) }
    else if i == 5 { (170, 0, 170) }
    else if i == 6 { (170, 85, 0) }
    else if i == 7 { (170, 170, 170) }
    else if i == 8 { (85, 85, 85) }
    else if i == 9 { (85, 85, 255) }
    else if i == 10 { (85, 255, 85) }
    else if i == 11 { (85, 255, 255) }
    else if i == 12 { (255, 85, 85) }
    else if i == 13 { (255, 85, 255) }
    else if i == 14 { (255, 255, 85) }
    else { (255, 255, 255) }
}

/// The CGA entry at `index`, as an RGBA colour with opaque alpha.
pub fn get_cga_color(index: u8) -> (c: [u8; 4])
    requires
        index < 16,
    ensures
        c@[0] == cga_color_spec(index as int).0,
        c@[1] == cga_color_spec(index as int).1,
        c@[2] == cga_color_spec(index as int).2,
        c@[3] == 255u8,
{
    match index {
        0 => [0, 0, 0, 255],
        1 => [0, 0, 170, 255],
        2 => [0, 170, 0, 255],
        3 => [0, 170, 170, 255],
        4 => [170, 0, 0, 255],
        5 => [170, 0, 170, 255],
        6 => [170, 85, 0, 255],
        7 => [170, 170, 170, 255],
        8 => [85, 85, 85, 255],
        9 => [85, 85, 255, 255],
        10 => [85, 255, 85, 255],
        11 => [85, 255, 255, 255],
        12 => [255, 85, 85, 255],
        13 => [255, 85, 255, 255],
        14 => [255, 255, 85, 255],
        _ => [255, 255, 255, 255],
    }
}

/// The Oklab coordinates of an 8-bit sRGB colour, as the IEEE 754 bit
/// patterns of the three binary32 components (L, a, b).  The conversion is a
/// pure function of the three components, so its result carries a name here.
pub uninterp spec fn oklab_bits(r: u8, g: u8, b: u8) -> (u32, u32, u32);

/// Relies on `oklab::srgb_to_oklab`: the Oklab coordinates of a colour depend
/// on its three sRGB components alone.  `f32::to_bits` is a raw transmutation
/// to the IEEE 754 binary32 bit pattern and computes nothing.
#[verifier::external_body]
fn srgb_to_oklab_bits(r: u8, g: u8, b: u8) -> (t: (u32, u32, u32))
    ensures
        t == oklab_bits(r, g, b),
{
    let c = oklab::srgb_to_oklab(oklab::Rgb { r, g, b });
    (c.l.to_bits(), c.a.to_bits(), c.b.to_bits())
}

/// Decodes an IEEE 754 binary32 bit pattern into a signed fixed-point value
/// with 24 fractional bits, truncating toward zero; a magnitude of two or
/// more is clamped to four.  Oklab coordinates lie well inside (-2, 2), so
/// the clamp is idle on every value this module compares.
pub open spec fn fixed_from_bits(bits: u32) -> int {
    let e = (bits >> 23) & 0xff;
    let m = (bits & 0x7fffff) as u64;
    let mag: u64 = if e < 103 {
        0
    } else if e <= 125 {
        (0x800000u64 | m) >> ((126 - e) as u64)
    } else if e <= 127 {
        (0x800000u64 | m) << ((e - 126) as u64)
    } else {
        0x4000000u64
    };
    if bits >> 31 == 1 { -(mag as int) } else { mag as int }
}

/// Every decoded coordinate lies within +/- 2^26.
pub proof fn lemma_fixed_bounds(bits: u32)
    ensures
        -0x4000000 <= fixed_from_bits(bits) <= 0x4000000,
{
    let e = (bits >> 23) & 0xff;
    let m = (bits & 0x7fffff) as u64;
    assert(bits & 0x7fffff < 0x800000) by (bit_vector);
    assert(m < 0x800000);
    if 103 <= e && e <= 125 {
        assert((0x800000u64 | m) >> ((126 - e) as u64) <= 0x1000000) by (bit_vector)
            requires m < 0x800000 && 103 <= e && e <= 125;
    } else if 126 <= e && e <= 127 {
        assert((0x800000u64 | m) << ((e - 126) as u64) <= 0x4000000) by (bit_vector)
            requires m < 0x800000 && 126 <= e && e <= 127;
    }
}

fn fixed_exec(bits: u32) -> (f: i64)
    ensures
        f as int == fixed_from_bits(bits),
        -0x4000000 <= f <= 0x4000000,
{
    proof { lemma_fixed_bounds(bits); }
    let e: u32 = (bits >> 23) & 0xff;
    let m: u64 = (bits & 0x7fffff) as u64;
    let mag: u64 = if e < 103 {
        0
    } else if e <= 125 {
        (0x800000u64 | m) >> ((126 - e) as u64)
    } else if e <= 127 {
        (0x800000u64 | m) << ((e - 126) as u64)
    } else {
        0x4000000u64
    };
    if bits >> 31 == 1 { -(mag as i64) } else { mag as i64 }
}

/// The decoded fixed-point Oklab coordinates of a colour.
pub open spec fn oklab_fixed(c: (u8, u8, u8)) -> (int, int, int) {
    let (lb, ab, bb) = oklab_bits(c.0, c.1, c.2);
    (fixed_from_bits(lb), fixed_from_bits(ab), fixed_from_bits(bb))
}

/// Squared Euclidean distance between two colours in fixed-point Oklab space.
pub open spec fn oklab_dist_sq(c1: (u8, u8, u8), c2: (u8, u8, u8)) -> int {
    let (l1, a1, b1) = oklab_fixed(c1);
    let (l2, a2, b2) = oklab_fixed(c2);
    (l1 - l2) * (l1 - l2) + (a1 - a2) * (a1 - a2) + (b1 - b2) * (b1 - b2)
}

proof fn lemma_sq_nonneg(x: int)
    ensures
        x * x >= 0,
        x != 0 ==> x * x > 0,
{
    assert(x * x >= 0 && (x != 0 ==> x * x > 0)) by (nonlinear_arith);
}

/// A squared distance is never negative, and it is zero exactly when the two
/// colours have the same Oklab coordinates.
pub proof fn lemma_dist_sq_zero(c1: (u8, u8, u8), c2: (u8, u8, u8))
    ensures
        oklab_dist_sq(c1, c2) >= 0,
        oklab_dist_sq(c1, c2) == 0 <==> oklab_fixed(c1) == oklab_fixed(c2),
{
    let (l1, a1, b1) = oklab_fixed(c1);
    let (l2, a2, b2) = oklab_fixed(c2);
    lemma_sq_nonneg(l1 - l2);
    lemma_sq_nonneg(a1 - a2);
    lemma_sq_nonneg(b1 - b2);
}

fn oklab_fixed_exec(r: u8, g: u8, b: u8) -> (t: (i64, i64, i64))
    ensures
        (t.0 as int, t.1 as int, t.2 as int) == oklab_fixed((r, g, b)),
        -0x4000000 <= t.0 <= 0x4000000,
        -0x4000000 <= t.1 <= 0x4000000,
        -0x4000000 <= t.2 <= 0x4000000,
{
    let (lb, ab, bb) = srgb_to_oklab_bits(r, g, b);
    (fixed_exec(lb), fixed_exec(ab), fixed_exec(bb))
}

fn dist_sq_exec(q: (i64, i64, i64), r: u8, g: u8, b: u8) -> (d: i64)
    requires
        -0x4000000 <= q.0 <= 0x4000000,
        -0x4000000 <= q.1 <= 0x4000000,
        -0x4000000 <= q.2 <= 0x4000000,
    ensures
        ({
            let (l2, a2, b2) = oklab_fixed((r, g, b));
            d as int == (q.0 - l2) * (q.0 - l2) + (q.1 - a2) * (q.1 - a2) + (q.2 - b2) * (q.2
                - b2)
        }),
{
    let (l2, a2, b2) = oklab_fixed_exec(r, g, b);
    let dl: i64 = q.0 - l2;
    let da: i64 = q.1 - a2;
    let db: i64 = q.2 - b2;
    proof {
        assert(dl * dl <= 0x8000000 * 0x8000000 && dl * dl >= 0) by (nonlinear_arith)
            requires -0x8000000 <= dl <= 0x8000000;
        assert(da * da <= 0x8000000 * 0x8000000 && da * da >= 0) by (nonlinear_arith)
            requires -0x8000000 <= da <= 0x8000000;
        assert(db * db <= 0x8000000 * 0x8000000 && db * db >= 0) by (nonlinear_arith)
            requires -0x8000000 <= db <= 0x8000000;
    }
    dl * dl + da * da + db * db
}

/// The index of the palette entry nearest to `c` among the first `n` entries,
/// earlier entries winning ties.
pub open spec fn best_cga_upto(c: (u8, u8, u8), n: int) -> int
    decreases n,
{
    if n <= 1 {
        0
    } else {
        let prev = best_cga_upto(c, n - 1);
        if oklab_dist_sq(c, cga_color_spec(n - 1)) < oklab_dist_sq(c, cga_color_spec(prev)) {
            n - 1
        } else {
            prev
        }
    }
}

/// The CGA index nearest to `c` in Oklab space, ties broken by lower index.
pub open spec fn cga_nearest_spec(c: (u8, u8, u8)) -> int {
    best_cga_upto(c, 16)
}

/// The nearest index among the first `n` is in range, minimizes the distance,
/// and every strictly earlier entry is strictly farther away.
pub proof fn lemma_best_cga_upto(c: (u8, u8, u8), n: int)
    requires
        1 <= n <= 16,
    ensures
        0 <= best_cga_upto(c, n) < n,
        forall|j: int| 0 <= j < n ==> #[trigger] oklab_dist_sq(c, cga_color_spec(j)) >= oklab_dist_sq(
            c,
            cga_color_spec(best_cga_upto(c, n)),
        ),
        forall|j: int| 0 <= j < best_cga_upto(c, n) ==> #[trigger] oklab_dist_sq(c, cga_color_spec(j))
            > oklab_dist_sq(c, cga_color_spec(best_cga_upto(c, n))),
    decreases n,
{
    if n > 1 {
        lemma_best_cga_upto(c, n - 1);
    }
}

/// The CGA index whose palette colour is nearest to `color` in Oklab space.
/// The alpha component is ignored.
pub fn find_closest_cga_color(color: [u8; 4]) -> (idx: u8)
    ensures
        idx < 16,
        idx as int == cga_nearest_spec((color@[0], color@[1], color@[2])),
        forall|j: int| 0 <= j < 16 ==> #[trigger] oklab_dist_sq(
            (color@[0], color@[1], color@[2]),
            cga_color_spec(j),
        ) >= oklab_dist_sq((color@[0], color@[1], color@[2]), cga_color_spec(idx as int)),
        forall|j: int| 0 <= j < idx ==> #[trigger] oklab_dist_sq(
            (color@[0], color@[1], color@[2]),
            cga_color_spec(j),
        ) > oklab_dist_sq((color@[0], color@[1], color@[2]), cga_color_spec(idx as int)),
{
    let ghost q = (color@[0], color@[1], color@[2]);
    let qf = oklab_fixed_exec(color[0], color[1], color[2]);
    let mut best: u8 = 0;
    let first = get_cga_color(0);
    let mut best_d: i64 = dist_sq_exec(qf, first[0], first[1], first[2]);
    let mut i: u8 = 1;
    while i < 16
        invariant
            1 <= i <= 16,
            best as int == best_cga_upto(q, i as int),
            best < i,
            best_d as int == oklab_dist_sq(q, cga_color_spec(best as int)),
            (qf.0 as int, qf.1 as int, qf.2 as int) == oklab_fixed(q),
            -0x4000000 <= qf.0 <= 0x4000000,
            -0x4000000 <= qf.1 <= 0x4000000,
            -0x4000000 <= qf.2 <= 0x4000000,
            q == (color@[0], color@[1], color@[2]),
        decreases 16 - i,
    {
        let entry = get_cga_color(i);
        let d = dist_sq_exec(qf, entry[0], entry[1], entry[2]);
        if d < best_d {
            best = i;
            best_d = d;
        }
        i = i + 1;
    }
    proof {
        lemma_best_cga_upto(q, 16);
    }
    best
}

/// Mapping a colour to its nearest CGA entry is idempotent: looking up the
/// palette colour of the chosen index and mapping that colour again yields
/// the same index.
pub proof fn lemma_cga_nearest_idempotent(c: (u8, u8, u8))
    ensures
        cga_nearest_spec(cga_color_spec(cga_nearest_spec(c))) == cga_nearest_spec(c),
{
    let i = cga_nearest_spec(c);
    lemma_best_cga_upto(c, 16);
    let p = cga_color_spec(i);
    let k = cga_nearest_spec(p);
    lemma_best_cga_upto(p, 16);
    lemma_dist_sq_zero(p, p);
    lemma_dist_sq_zero(p, cga_color_spec(k));
    // The distance from p to entry k is at most the distance from p to
    // itself, which is zero; so the coordinates of entry k equal those of p.
    assert(oklab_dist_sq(p, cga_color_spec(k)) == 0);
    assert(oklab_fixed(cga_color_spec(k)) == oklab_fixed(p));
    if k < i {
        // Entry k would then be exactly as far from c as entry i, yet the
        // choice of i demands every earlier entry be strictly farther.
        assert(oklab_dist_sq(c, cga_color_spec(k)) == oklab_dist_sq(c, p));
        assert(false);
    }
    if k > i {
        // The choice of k demands every earlier entry be strictly farther
        // from p than entry k, but entry i is at distance zero.
        lemma_dist_sq_zero(p, cga_color_spec(i));
        assert(oklab_dist_sq(p, cga_color_spec(i)) == 0);
        assert(false);
    }
}

} // verus!
