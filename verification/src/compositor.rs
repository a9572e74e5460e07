//! Compositing plans: stateless decisions for painting one surface into
//! another.
//!
//! The compositing-rendering extension maps destination pixels back to
//! source pixels through an affine transform in 16.16 fixed point, resamples
//! through a filter, and combines through a blend operator, optionally
//! through a uniform alpha mask. This module computes those parameters as a
//! plan — the caller sends the plan to the display server. A zero-area
//! destination is a no-op, not an error.

use vstd::prelude::*;

verus! {

/// One unit (1.0) in the 16.16 fixed-point format of the transform matrix.
pub const FIXED_ONE: i32 = 65536;

/// A destination rectangle on a canvas.
#[derive(Clone, Copy, Debug, PartialEq, Eq, Structural)]
pub struct Rect {
    /// Left edge.
    pub x: i16,
    /// Top edge.
    pub y: i16,
    /// Width in pixels.
    pub width: u16,
    /// Height in pixels.
    pub height: u16,
}

impl Rect {
    /// A rectangle that covers no pixels.
    pub open spec fn is_empty(self) -> bool {
        self.width == 0 || self.height == 0
    }
}

/// A diagonal affine transform in 16.16 fixed point: the three diagonal
/// entries of the 3x3 matrix handed to the display server; the off-diagonal
/// entries are zero.
#[derive(Clone, Copy, Debug, PartialEq, Eq, Structural)]
pub struct FixedTransform {
    /// Horizontal scale entry (destination x back to source x).
    pub xx: i32,
    /// Vertical scale entry (destination y back to source y).
    pub yy: i32,
    /// Homogeneous entry; always one.
    pub ww: i32,
}

/// The resampling filter applied to the source.
#[derive(Clone, Copy, Debug, PartialEq, Eq, Structural)]
pub enum Filter {
    /// Smooth (bilinear) resampling, for any scale change.
    Smooth,
    /// Nearest-pixel sampling, for 1:1 blits.
    Nearest,
}

/// The blend operator combining source and destination.
#[derive(Clone, Copy, Debug, PartialEq, Eq, Structural)]
pub enum BlendOp {
    /// Replace destination pixels with source pixels (opaque).
    Replace,
    /// Alpha-blend source over destination.
    Over,
}

/// Everything one composite request needs.
#[derive(Clone, Copy, Debug, PartialEq, Eq, Structural)]
pub struct PaintPlan {
    /// The transform to set on the source paint handle.
    pub transform: FixedTransform,
    /// The filter to set on the source paint handle.
    pub filter: Filter,
    /// The blend operator of the composite request.
    pub op: BlendOp,
    /// Alpha of the uniform solid mask, or no mask at all.
    pub mask_alpha: Option<u16>,
    /// Where on the destination the source lands.
    pub dst: Rect,
}

/// The identity transform.
pub open spec fn spec_identity_transform() -> FixedTransform {
    FixedTransform { xx: 65536, yy: 65536, ww: 65536 }
}

/// A ratio in 16.16 fixed point, clamped to the transform entry's range.
pub open spec fn fixed_ratio(num: int, den: int) -> int {
    let v = num * 65536 / den;
    if v > 0x7fffffff {
        0x7fffffff
    } else {
        v
    }
}

/// The scale transform that maps a destination rectangle back onto the
/// source: each axis scales by source size over destination size.
pub open spec fn spec_scale_transform(
    src_width: u16,
    src_height: u16,
    dst_width: u16,
    dst_height: u16,
) -> FixedTransform {
    FixedTransform {
        xx: fixed_ratio(src_width as int, dst_width as int) as i32,
        yy: fixed_ratio(src_height as int, dst_height as int) as i32,
        ww: 65536,
    }
}

/// The filter a paint uses: nearest for a 1:1 blit, smooth for any scale
/// change.
pub open spec fn spec_choose_filter(
    src_width: u16,
    src_height: u16,
    dst_width: u16,
    dst_height: u16,
) -> Filter {
    if src_width == dst_width && src_height == dst_height {
        Filter::Nearest
    } else {
        Filter::Smooth
    }
}

/// The plan for painting a source of the given size, scaled into `dst`.
pub open spec fn spec_plan_paint_scaled(
    src_width: u16,
    src_height: u16,
    dst: Rect,
    op: BlendOp,
) -> Option<PaintPlan> {
    if dst.is_empty() {
        None
    } else {
        Some(
            PaintPlan {
                transform: spec_scale_transform(src_width, src_height, dst.width, dst.height),
                filter: spec_choose_filter(src_width, src_height, dst.width, dst.height),
                op,
                mask_alpha: None,
                dst,
            },
        )
    }
}

/// The plan for painting a source 1:1 into `dst` through a uniform alpha
/// mask; zero alpha paints nothing.
pub open spec fn spec_plan_paint_with_opacity(dst: Rect, alpha: u16) -> Option<PaintPlan> {
    if dst.is_empty() || alpha == 0 {
        None
    } else {
        Some(
            PaintPlan {
                transform: spec_identity_transform(),
                filter: Filter::Nearest,
                op: BlendOp::Over,
                mask_alpha: Some(alpha),
                dst,
            },
        )
    }
}

/// The identity transform, for 1:1 painting.
pub fn identity_transform() -> (t: FixedTransform)
    ensures
        t == spec_identity_transform(),
{
    FixedTransform { xx: FIXED_ONE, yy: FIXED_ONE, ww: FIXED_ONE }
}

/// One axis of the scale: source size over destination size in 16.16 fixed
/// point, clamped to the entry's range.
fn fixed_ratio_exec(num: u16, den: u16) -> (r: i32)
    requires
        den > 0,
    ensures
        r == fixed_ratio(num as int, den as int),
{
    let v: u64 = (num as u64 * 65536) / (den as u64);
    proof {
        assert(num as int * 65536 / den as int <= num as int * 65536) by (nonlinear_arith)
            requires
                den > 0,
                num >= 0,
        ;
    }
    if v > 0x7fffffff {
        0x7fffffff
    } else {
        v as i32
    }
}

/// The transform that scales a source of the given size onto a destination
/// of the given size.
pub fn scale_transform(src_width: u16, src_height: u16, dst_width: u16, dst_height: u16) -> (t:
    FixedTransform)
    requires
        dst_width > 0,
        dst_height > 0,
    ensures
        t == spec_scale_transform(src_width, src_height, dst_width, dst_height),
{
    FixedTransform {
        xx: fixed_ratio_exec(src_width, dst_width),
        yy: fixed_ratio_exec(src_height, dst_height),
        ww: FIXED_ONE,
    }
}

/// Plan a scaled paint of a source into a destination rectangle: scale
/// transform, filter choice, the given blend operator, no mask. An empty
/// destination rectangle paints nothing and is not an error.
pub fn paint_scaled(src_width: u16, src_height: u16, dst: Rect, op: BlendOp) -> (p: Option<
    PaintPlan,
>)
    ensures
        p == spec_plan_paint_scaled(src_width, src_height, dst, op),
{
    if dst.width == 0 || dst.height == 0 {
        None
    } else {
        Some(
            PaintPlan {
                transform: scale_transform(src_width, src_height, dst.width, dst.height),
                filter: if src_width == dst.width && src_height == dst.height {
                    Filter::Nearest
                } else {
                    Filter::Smooth
                },
                op,
                mask_alpha: None,
                dst,
            },
        )
    }
}

/// Plan an unscaled paint through a uniform alpha mask, for cross-fading
/// windows that are not part of the active overview set. Zero alpha (and an
/// empty rectangle) is a no-op; full alpha is 65535.
pub fn paint_with_opacity(dst: Rect, alpha: u16) -> (p: Option<PaintPlan>)
    ensures
        p == spec_plan_paint_with_opacity(dst, alpha),
{
    if dst.width == 0 || dst.height == 0 || alpha == 0 {
        None
    } else {
        Some(
            PaintPlan {
                transform: identity_transform(),
                filter: Filter::Nearest,
                op: BlendOp::Over,
                mask_alpha: Some(alpha),
                dst,
            },
        )
    }
}

/// Law: a destination of exactly the source size scales by 1.0 on both
/// axes — the transform is the identity.
pub proof fn lemma_unscaled_is_identity(width: u16, height: u16)
    requires
        width > 0,
        height > 0,
    ensures
        spec_scale_transform(width, height, width, height) == spec_identity_transform(),
{
    assert(width as int * 65536 / width as int == 65536) by (nonlinear_arith)
        requires
            width > 0,
    ;
    assert(height as int * 65536 / height as int == 65536) by (nonlinear_arith)
        requires
            height > 0,
    ;
}

/// Law: painting at full opacity and painting the same rectangle scaled
/// from a source of the same size go through the identity transform onto
/// the same destination pixels; the two plans differ only in the blend
/// operator and filter, and the opacity plan's mask is fully opaque.
pub proof fn lemma_full_opacity_geometry_matches_unscaled(dst: Rect, op: BlendOp)
    requires
        !dst.is_empty(),
    ensures
        ({
            let by_opacity = spec_plan_paint_with_opacity(dst, 65535).unwrap();
            let by_scale = spec_plan_paint_scaled(dst.width, dst.height, dst, op).unwrap();
            &&& by_opacity.transform == by_scale.transform
            &&& by_opacity.transform == spec_identity_transform()
            &&& by_opacity.dst == by_scale.dst
            &&& by_opacity.mask_alpha == Some(65535u16)
        }),
{
    lemma_unscaled_is_identity(dst.width, dst.height);
}

} // verus!
