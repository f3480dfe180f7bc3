//! Alpha blending of one pixel onto another, and of one buffer onto another.
//!
//! All quantities are exact fractions. A source pixel's effective alpha is
//! `coverage / FULL`; colours stay in straight 0..=255 space; every quotient
//! is rounded down.

use vstd::prelude::*;
use crate::layers::{BlendMode, OPAQUE};
use crate::raster::{Color, Grid, PixelBuffer};

verus! {

/// The denominator of effective alpha: source alpha (255), opacity (1000)
/// and mask alpha (255) at their largest.
pub const FULL: u64 = 65_025_000;

/// Opacity as the blend uses it: thousandths, capped at fully opaque.
pub open spec fn effective_opacity(opacity: u16) -> int {
    if opacity > OPAQUE {
        OPAQUE as int
    } else {
        opacity as int
    }
}

/// Effective source alpha in units of `1 / FULL`: the source's own alpha
/// times the layer opacity times the mask's alpha, where a missing mask
/// counts as fully opaque.
pub open spec fn coverage(src_alpha: u8, opacity: u16, mask_alpha: Option<u8>) -> int {
    src_alpha as int * effective_opacity(opacity) * match mask_alpha {
        Some(m) => m as int,
        None => 255,
    }
}

/// The per-mode mix of a destination and a source channel, times 255.
pub open spec fn mixed(mode: BlendMode, d: u8, s: u8) -> int {
    match mode {
        BlendMode::Normal => 255 * s,
        BlendMode::Multiply => d as int * s as int,
        BlendMode::Add => if d + s > 255 {
            65025int
        } else {
            255 * (d + s)
        },
        BlendMode::Screen => 65025 - (255 - s) * (255 - d),
    }
}

/// "Over" compositing of alpha: `src_a + dst_a * (1 - src_a)`, times
/// `255 * FULL`, where `src_a` is `n / FULL` and `dst_a` is `da / 255`.
pub open spec fn alpha_over(da: u8, n: int) -> int {
    255 * n + da as int * (FULL as int - n)
}

pub open spec fn cap(v: int) -> u8 {
    if v > 255 {
        255u8
    } else if v < 0 {
        0u8
    } else {
        v as u8
    }
}

/// One output colour channel: the mix weighted by source alpha plus the
/// destination weighted by what is left, divided by the output alpha.
pub open spec fn blended_channel(mode: BlendMode, d: u8, s: u8, da: u8, n: int) -> u8 {
    cap((mixed(mode, d, s) * n + d as int * da as int * (FULL as int - n)) / alpha_over(da, n))
}

/// The pixel that results from blending `src` onto `dst`. With no coverage
/// the destination stays as it is.
pub open spec fn blended(
    dst: Color,
    src: Color,
    opacity: u16,
    mode: BlendMode,
    mask_alpha: Option<u8>,
) -> Color {
    let n = coverage(src.a, opacity, mask_alpha);
    if n <= 0 {
        dst
    } else {
        Color {
            r: blended_channel(mode, dst.r, src.r, dst.a, n),
            g: blended_channel(mode, dst.g, src.g, dst.a, n),
            b: blended_channel(mode, dst.b, src.b, dst.a, n),
            a: cap(alpha_over(dst.a, n) / (FULL as int)),
        }
    }
}

/// Coverage never exceeds `FULL`.
pub proof fn lemma_coverage_bounds(src_alpha: u8, opacity: u16, mask_alpha: Option<u8>)
    ensures
        0 <= coverage(src_alpha, opacity, mask_alpha) <= FULL,
{
    let o = effective_opacity(opacity);
    let m: int = match mask_alpha {
        Some(m) => m as int,
        None => 255,
    };
    assert(0 <= src_alpha as int * o <= 255 * 1000) by (nonlinear_arith)
        requires
            0 <= src_alpha <= 255,
            0 <= o <= 1000,
    ;
    assert(0 <= (src_alpha as int * o) * m <= 255 * 1000 * 255) by (nonlinear_arith)
        requires
            0 <= src_alpha as int * o <= 255 * 1000,
            0 <= m <= 255,
    ;
}

/// The mix of two channels, times 255, lies between 0 and 255 * 255.
pub proof fn lemma_mixed_bounds(mode: BlendMode, d: u8, s: u8)
    ensures
        0 <= mixed(mode, d, s) <= 255 * 255,
{
    assert(0 <= d as int * s as int <= 255 * 255) by (nonlinear_arith)
        requires
            0 <= d <= 255,
            0 <= s <= 255,
    ;
    assert(0 <= (255 - s) * (255 - d) <= 255 * 255) by (nonlinear_arith)
        requires
            0 <= d <= 255,
            0 <= s <= 255,
    ;
}

fn mix_channel(mode: BlendMode, d: u8, s: u8) -> (m: u64)
    ensures
        m == mixed(mode, d, s),
        m <= 255 * 255,
{
    proof {
        lemma_mixed_bounds(mode, d, s);
    }
    let d64 = d as u64;
    let s64 = s as u64;
    match mode {
        BlendMode::Normal => 255 * s64,
        BlendMode::Multiply => d64 * s64,
        BlendMode::Add => if d64 + s64 > 255 {
            255 * 255
        } else {
            255 * (d64 + s64)
        },
        BlendMode::Screen => {
            let inv: u64 = (255 - s64) * (255 - d64);
            255 * 255 - inv
        },
    }
}

fn blend_channel(mode: BlendMode, d: u8, s: u8, da: u8, n: u64) -> (c: u8)
    requires
        0 < n <= FULL,
    ensures
        c == blended_channel(mode, d, s, da, n as int),
{
    let m = mix_channel(mode, d, s);
    let rest: u64 = FULL - n;
    assert(m * n <= 255 * 255 * FULL) by (nonlinear_arith)
        requires
            m <= 255 * 255,
            n <= FULL,
    ;
    assert(d as int * da as int <= 255 * 255) by (nonlinear_arith)
        requires
            d <= 255,
            da <= 255,
    ;
    let kept: u64 = (d as u64) * (da as u64);
    assert(kept * rest <= 255 * 255 * FULL) by (nonlinear_arith)
        requires
            kept <= 255 * 255,
            rest <= FULL,
    ;
    assert((da as u64) * rest <= 255 * FULL) by (nonlinear_arith)
        requires
            da <= 255,
            rest <= FULL,
    ;
    let num: u64 = m * n + kept * rest;
    let den: u64 = 255 * n + (da as u64) * rest;
    let v: u64 = num / den;
    if v > 255 {
        255
    } else {
        v as u8
    }
}

/// Blends `src` onto `dst` with the given layer opacity and mode. `mask_alpha`
/// is the alpha of the clip mask at this pixel, if the layer is clipped.
pub fn blend_pixel(
    dst: Color,
    src: Color,
    opacity: u16,
    mode: BlendMode,
    mask_alpha: Option<u8>,
) -> (out: Color)
    ensures
        out == blended(dst, src, opacity, mode, mask_alpha),
{
    proof {
        lemma_coverage_bounds(src.a, opacity, mask_alpha);
    }
    let o: u64 = if opacity > OPAQUE {
        OPAQUE as u64
    } else {
        opacity as u64
    };
    let m: u64 = match mask_alpha {
        Some(m) => m as u64,
        None => 255,
    };
    assert((src.a as u64) * o <= 255 * 1000) by (nonlinear_arith)
        requires
            src.a <= 255,
            o <= 1000,
    ;
    let so: u64 = (src.a as u64) * o;
    assert(so * m <= 255 * 1000 * 255) by (nonlinear_arith)
        requires
            so <= 255 * 1000,
            m <= 255,
    ;
    let n: u64 = so * m;
    if n == 0 {
        return dst;
    }
    let rest: u64 = FULL - n;
    assert((dst.a as u64) * rest <= 255 * FULL) by (nonlinear_arith)
        requires
            dst.a <= 255,
            rest <= FULL,
    ;
    let a_num: u64 = 255 * n + (dst.a as u64) * rest;
    let a: u64 = a_num / FULL;
    Color {
        r: blend_channel(mode, dst.r, src.r, dst.a, n),
        g: blend_channel(mode, dst.g, src.g, dst.a, n),
        b: blend_channel(mode, dst.b, src.b, dst.a, n),
        a: if a > 255 {
            255
        } else {
            a as u8
        },
    }
}

/// A fully opaque source pixel, blended in Normal mode at full opacity and
/// without a mask, replaces whatever lies under it.
pub proof fn lemma_opaque_normal_replaces(dst: Color, src: Color, opacity: u16)
    requires
        src.a == 255,
        opacity >= OPAQUE,
    ensures
        blended(dst, src, opacity, BlendMode::Normal, None) == src,
{
    let n = coverage(src.a, opacity, None);
    assert(n == FULL) by (nonlinear_arith)
        requires
            n == 255 * 1000 * 255,
    ;
    assert(alpha_over(dst.a, n) == 255 * FULL) by (nonlinear_arith)
        requires
            n == FULL,
            alpha_over(dst.a, n) == 255 * n + dst.a as int * (FULL as int - n),
    ;
    lemma_channel_replaced(dst.r, src.r, dst.a);
    lemma_channel_replaced(dst.g, src.g, dst.a);
    lemma_channel_replaced(dst.b, src.b, dst.a);
}

/// With full coverage a Normal-mode channel is the source's.
proof fn lemma_channel_replaced(d: u8, s: u8, da: u8)
    ensures
        blended_channel(BlendMode::Normal, d, s, da, FULL as int) == s,
{
    let num = mixed(BlendMode::Normal, d, s) * (FULL as int) + d as int * da as int * (FULL as int
        - FULL as int);
    assert(num == s * (255 * FULL)) by (nonlinear_arith)
        requires
            num == (255 * s) * (FULL as int) + d as int * da as int * 0,
    ;
    assert(alpha_over(da, FULL as int) == 255 * FULL);
    assert((s * (255 * FULL)) / (255 * FULL) == s) by (nonlinear_arith)
        requires
            255 * FULL > 0,
    ;
}

/// An opaque Normal-mode buffer of the destination's size, blended at full
/// opacity and without a mask, covers the destination completely.
pub proof fn lemma_opaque_normal_covers(dest: Grid<Color>, src: Grid<Color>, opacity: u16)
    requires
        src.wf(),
        dest.width == src.width,
        dest.height == src.height,
        opacity >= OPAQUE,
        forall|x: int, y: int| src.contains(x, y) ==> (#[trigger] src.at(x, y)).a == 255,
    ensures
        blend_grid(dest, src, opacity, BlendMode::Normal, None) == src,
{
    let out = blend_grid(dest, src, opacity, BlendMode::Normal, None);
    assert forall|x: int, y: int| out.contains(x, y) implies #[trigger] out.at(x, y) == src.at(
        x,
        y,
    ) by {
        lemma_opaque_normal_replaces(dest.at(x, y), src.at(x, y), opacity);
    }
    Grid::lemma_equal(out, src);
}

/// The alpha of the clip mask at `(x, y)`: none when there is no mask, zero
/// where the mask does not reach.
pub open spec fn mask_alpha_at(mask: Option<Grid<Color>>, x: int, y: int) -> Option<u8> {
    match mask {
        None => None,
        Some(m) => if m.contains(x, y) {
            Some(m.at(x, y).a)
        } else {
            Some(0u8)
        },
    }
}

/// What blending `src` onto `dest` makes of the pixel at `(x, y)` of `dest`.
/// Where the source does not reach, the destination stays.
pub open spec fn blend_at(
    dest: Grid<Color>,
    src: Grid<Color>,
    opacity: u16,
    mode: BlendMode,
    mask: Option<Grid<Color>>,
    x: int,
    y: int,
) -> Color {
    if src.contains(x, y) {
        blended(dest.at(x, y), src.at(x, y), opacity, mode, mask_alpha_at(mask, x, y))
    } else {
        dest.at(x, y)
    }
}

/// A whole buffer blended onto another, pixel by pixel, both anchored at
/// the top-left corner.
pub open spec fn blend_grid(
    dest: Grid<Color>,
    src: Grid<Color>,
    opacity: u16,
    mode: BlendMode,
    mask: Option<Grid<Color>>,
) -> Grid<Color> {
    Grid::build(
        dest.width,
        dest.height,
        |x: int, y: int| blend_at(dest, src, opacity, mode, mask, x, y),
    )
}

/// Blends `source` onto `dest` in place. A clip mask, if given, scales the
/// source's alpha by its own; pixels that the source or the mask does not
/// reach are left as they are.
pub fn blend_buffer(
    dest: &mut PixelBuffer,
    source: &PixelBuffer,
    opacity: u16,
    mode: BlendMode,
    mask: Option<&PixelBuffer>,
)
    ensures
        final(dest)@ == blend_grid(
            old(dest)@,
            source@,
            opacity,
            mode,
            match mask {
                Some(m) => Some(m@),
                None => None,
            },
        ),
{
    let ghost before = dest@;
    let ghost mask_view: Option<Grid<Color>> = match mask {
        Some(m) => Some(m@),
        None => None,
    };
    let w = dest.width();
    let h = dest.height();
    let sw = source.width();
    let sh = source.height();
    let mut y: u32 = 0;
    while y < h
        invariant
            y <= h,
            dest@.width == w,
            dest@.height == h,
            before.width == w,
            before.height == h,
            source@.width == sw,
            source@.height == sh,
            mask_view == match mask {
                Some(m) => Some(m@),
                None => None::<Grid<Color>>,
            },
            forall|i: int, j: int|
                0 <= i < w && 0 <= j < h ==> #[trigger] dest@.at(i, j) == if j < y {
                    blend_at(before, source@, opacity, mode, mask_view, i, j)
                } else {
                    before.at(i, j)
                },
        decreases h - y,
    {
        let mut x: u32 = 0;
        while x < w
            invariant
                x <= w,
                y < h,
                dest@.width == w,
                dest@.height == h,
                before.width == w,
                before.height == h,
                source@.width == sw,
                source@.height == sh,
                mask_view == match mask {
                    Some(m) => Some(m@),
                    None => None::<Grid<Color>>,
                },
                forall|i: int, j: int|
                    0 <= i < w && 0 <= j < h ==> #[trigger] dest@.at(i, j) == if Grid::<
                        Color,
                    >::passed(i, j, x as int, y as int) {
                        blend_at(before, source@, opacity, mode, mask_view, i, j)
                    } else {
                        before.at(i, j)
                    },
            decreases w - x,
        {
            if x < sw && y < sh {
                let src = source.pixel(x, y);
                let mask_alpha: Option<u8> = match mask {
                    None => None,
                    Some(m) => if x < m.width() && y < m.height() {
                        Some(m.pixel(x, y).a)
                    } else {
                        Some(0u8)
                    },
                };
                let dst = dest.pixel(x, y);
                let out = blend_pixel(dst, src, opacity, mode, mask_alpha);
                dest.set_pixel(x, y, out);
            }
            x += 1;
        }
        y += 1;
    }
    proof {
        dest.lemma_view();
        Grid::lemma_equal(dest@, blend_grid(before, source@, opacity, mode, mask_view));
    }
}

} // verus!
