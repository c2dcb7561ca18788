//! Clip-to-scissor conversion.
//!
//! The overlay draws each primitive under a scissor rectangle derived
//! from the primitive's clip rectangle and the device-pixel scale, clamped
//! to the surface's pixel bounds. Logical coordinates and the content
//! scale are carried in thousandths, so that the host's fractional values
//! survive as plain integers: a coordinate of 500 logical points is
//! 500_000 units, a content scale of 2 is 2_000 units.

use vstd::prelude::*;
use vstd::arithmetic::div_mod::{lemma_div_is_ordered, lemma_div_pos_is_pos};
use vstd::arithmetic::mul::{lemma_mul_inequality, lemma_mul_nonnegative, lemma_mul_upper_bound};

verus! {

/// One unit of logical coordinate or scale: a thousandth.
pub const FP_ONE: u64 = 1000;

/// The largest coordinate or scale value the conversion accepts.
pub const FP_MAX: u64 = 0xFFFF_FFFF;

/// The device-pixel coordinate of a logical coordinate under a content
/// scale, both in thousandths: `coord * scale` rounded to the nearest
/// pixel, halves away from zero.
pub open spec fn px_of(coord_fp: int, scale_fp: int) -> int {
    (coord_fp * scale_fp + 500_000) / 1_000_000
}

/// Rounding to pixels is monotone in the coordinate.
pub proof fn lemma_px_monotone(a: int, b: int, scale_fp: int)
    requires
        0 <= a <= b,
        0 <= scale_fp,
    ensures
        px_of(a, scale_fp) <= px_of(b, scale_fp),
{
    lemma_mul_inequality(a, b, scale_fp);
    lemma_div_is_ordered(a * scale_fp + 500_000, b * scale_fp + 500_000, 1_000_000);
}

/// Rounding to pixels never goes negative.
pub proof fn lemma_px_nonnegative(a: int, scale_fp: int)
    requires
        0 <= a,
        0 <= scale_fp,
    ensures
        0 <= px_of(a, scale_fp),
{
    lemma_mul_nonnegative(a, scale_fp);
    lemma_div_pos_is_pos(a * scale_fp + 500_000, 1_000_000);
}

/// Computes `px_of` on machine integers.
pub fn round_to_pixels(coord_fp: u64, scale_fp: u64) -> (px: u64)
    requires
        coord_fp <= FP_MAX,
        scale_fp <= FP_MAX,
    ensures
        px == px_of(coord_fp as int, scale_fp as int),
{
    proof {
        lemma_mul_upper_bound(coord_fp as int, FP_MAX as int, scale_fp as int, FP_MAX as int);
    }
    (coord_fp * scale_fp + 500_000) / 1_000_000
}

/// A primitive's clip rectangle, in thousandths of a logical point.
#[derive(Clone, Copy, Debug, PartialEq, Eq, Structural)]
pub struct ClipRect {
    /// Left edge.
    pub min_x: u64,
    /// Top edge.
    pub min_y: u64,
    /// Right edge.
    pub max_x: u64,
    /// Bottom edge.
    pub max_y: u64,
}

impl ClipRect {
    /// A well-formed clip rectangle: edges ordered, coordinates within
    /// the range the conversion accepts.
    pub open spec fn wf(&self) -> bool {
        &&& self.min_x <= self.max_x <= FP_MAX
        &&& self.min_y <= self.max_y <= FP_MAX
    }
}

/// A scissor rectangle in device pixels.
#[derive(Clone, Copy, Debug, PartialEq, Eq, Structural)]
pub struct ScissorRect {
    /// Left edge.
    pub x: u64,
    /// Top edge.
    pub y: u64,
    /// Width.
    pub w: u64,
    /// Height.
    pub h: u64,
}

/// What a clip rectangle converts to on a `surf_w` by `surf_h` pixel
/// surface under a content scale: scissor origin is the rounded scaled
/// minimum, extent the difference of the rounded scaled edges, each axis
/// clamped so that origin plus extent stays within the surface; a
/// degenerate rectangle — zero extent, or an origin at or beyond the
/// surface — converts to nothing and the draw is skipped.
pub open spec fn scissor_of(clip: ClipRect, scale_fp: int, surf_w: int, surf_h: int) -> Option<
    ScissorRect,
> {
    let ox = px_of(clip.min_x as int, scale_fp);
    let oy = px_of(clip.min_y as int, scale_fp);
    let ex = px_of(clip.max_x as int, scale_fp) - ox;
    let ey = px_of(clip.max_y as int, scale_fp) - oy;
    if ox >= surf_w || oy >= surf_h || ex == 0 || ey == 0 {
        Option::None
    } else {
        Option::Some(
            ScissorRect {
                x: ox as u64,
                y: oy as u64,
                w: (if ex > surf_w - ox {
                    surf_w - ox
                } else {
                    ex
                }) as u64,
                h: (if ey > surf_h - oy {
                    surf_h - oy
                } else {
                    ey
                }) as u64,
            },
        )
    }
}

/// Converts a clip rectangle to the scissor rectangle to draw under, or
/// `None` when the draw must be skipped.
pub fn clip_to_scissor(clip: &ClipRect, scale_fp: u64, surf_w: u64, surf_h: u64) -> (r: Option<
    ScissorRect,
>)
    requires
        clip.wf(),
        scale_fp <= FP_MAX,
    ensures
        r == scissor_of(*clip, scale_fp as int, surf_w as int, surf_h as int),
{
    let ox = round_to_pixels(clip.min_x, scale_fp);
    let oy = round_to_pixels(clip.min_y, scale_fp);
    let px_max_x = round_to_pixels(clip.max_x, scale_fp);
    let px_max_y = round_to_pixels(clip.max_y, scale_fp);
    proof {
        lemma_px_monotone(clip.min_x as int, clip.max_x as int, scale_fp as int);
        lemma_px_monotone(clip.min_y as int, clip.max_y as int, scale_fp as int);
    }
    let ex = px_max_x - ox;
    let ey = px_max_y - oy;
    if ox >= surf_w || oy >= surf_h || ex == 0 || ey == 0 {
        None
    } else {
        let w = if ex > surf_w - ox {
            surf_w - ox
        } else {
            ex
        };
        let h = if ey > surf_h - oy {
            surf_h - oy
        } else {
            ey
        };
        Some(ScissorRect { x: ox, y: oy, w, h })
    }
}

/// Law: a clip rectangle whose scaled origin lies at or beyond the
/// surface bounds yields a skipped draw.
pub proof fn lemma_outside_clip_skipped(clip: ClipRect, scale_fp: int, surf_w: int, surf_h: int)
    requires
        px_of(clip.min_x as int, scale_fp) >= surf_w || px_of(clip.min_y as int, scale_fp)
            >= surf_h,
    ensures
        scissor_of(clip, scale_fp, surf_w, surf_h) is None,
{
}

/// Law: a converted scissor rectangle never exceeds the surface, and one
/// that straddles a far boundary is clamped so that origin plus extent
/// lands on the surface dimension exactly.
pub proof fn lemma_scissor_clamped(clip: ClipRect, scale_fp: int, surf_w: int, surf_h: int)
    requires
        clip.wf(),
        0 <= scale_fp,
        0 <= surf_w <= u64::MAX,
        0 <= surf_h <= u64::MAX,
        scissor_of(clip, scale_fp, surf_w, surf_h) matches Some(s),
    ensures
        scissor_of(clip, scale_fp, surf_w, surf_h) matches Some(s) ==> s.x + s.w <= surf_w && s.y
            + s.h <= surf_h,
        scissor_of(clip, scale_fp, surf_w, surf_h) matches Some(s) ==> (px_of(
            clip.max_x as int,
            scale_fp,
        ) > surf_w ==> s.x + s.w == surf_w),
        scissor_of(clip, scale_fp, surf_w, surf_h) matches Some(s) ==> (px_of(
            clip.max_y as int,
            scale_fp,
        ) > surf_h ==> s.y + s.h == surf_h),
{
    lemma_px_monotone(clip.min_x as int, clip.max_x as int, scale_fp);
    lemma_px_monotone(clip.min_y as int, clip.max_y as int, scale_fp);
    lemma_px_nonnegative(clip.min_x as int, scale_fp);
    lemma_px_nonnegative(clip.min_y as int, scale_fp);
}

} // verus!
