//! Resolution of the output raster size from the sizing directives.
//!
//! The policy, in precedence order against the intrinsic document size
//! `(iw, ih)`:
//! 1. a positive zoom factor scales both axes of the intrinsic size;
//! 2. else explicit positive width and height are used verbatim;
//! 3. else a positive width alone drives an aspect-preserving height;
//! 4. else a positive height alone drives an aspect-preserving width;
//! 5. else the intrinsic size is used unchanged.
//!
//! Each axis is then clamped independently to `[1, 16384]`. Scaled values
//! are truncated toward zero. The zoom factor is carried in fixed point,
//! in millionths (`1_000_000` meaning a zoom of one).

use vstd::prelude::*;

verus! {

/// One axis of the output raster, clamped to the inclusive range
/// `[1, 16384]`.
pub open spec fn clamp_dim(v: int) -> int {
    if v < 1 {
        1
    } else if v > 16384 {
        16384
    } else {
        v
    }
}

/// The resolved `(width, height)` of the output raster, before either
/// axis is represented in a machine integer. `zoom_micros` is the zoom
/// factor in millionths; zero means no zoom was requested. Requested
/// dimensions are taken only when strictly positive.
pub open spec fn spec_resolve_dimensions(
    iw: int,
    ih: int,
    zoom_micros: int,
    width: int,
    height: int,
) -> (int, int)
    recommends
        iw >= 1,
        ih >= 1,
{
    if zoom_micros > 0 {
        (clamp_dim(iw * zoom_micros / 1000000), clamp_dim(ih * zoom_micros / 1000000))
    } else if width > 0 && height > 0 {
        (clamp_dim(width), clamp_dim(height))
    } else if width > 0 {
        (clamp_dim(width), clamp_dim(ih * width / iw))
    } else if height > 0 {
        (clamp_dim(iw * height / ih), clamp_dim(height))
    } else {
        (clamp_dim(iw), clamp_dim(ih))
    }
}

/// Clamps one resolved axis to `[1, 16384]`.
fn clamp_axis(v: u128) -> (r: u32)
    ensures
        r == clamp_dim(v as int),
{
    if v < 1 {
        1
    } else if v > 16384 {
        16384
    } else {
        v as u32
    }
}

/// Resolves the output raster size from the intrinsic document size
/// `(iw, ih)`, the fixed-point zoom factor, and the requested width and
/// height, exactly as `spec_resolve_dimensions` states it.
pub fn resolve_dimensions(iw: u32, ih: u32, zoom_micros: u64, width: i32, height: i32) -> (dims: (
    u32,
    u32,
))
    requires
        iw >= 1,
        ih >= 1,
    ensures
        (dims.0 as int, dims.1 as int) == spec_resolve_dimensions(
            iw as int,
            ih as int,
            zoom_micros as int,
            width as int,
            height as int,
        ),
        1 <= dims.0 <= 16384,
        1 <= dims.1 <= 16384,
{
    if zoom_micros > 0 {
        proof {
            assert((iw as int) * (zoom_micros as int) <= 0xffff_ffff * 0xffff_ffff_ffff_ffff
                && (ih as int) * (zoom_micros as int) <= 0xffff_ffff * 0xffff_ffff_ffff_ffff)
                by (nonlinear_arith)
                requires
                    iw <= 0xffff_ffffu64,
                    ih <= 0xffff_ffffu64,
                    zoom_micros <= 0xffff_ffff_ffff_ffffu64,
            ;
        }
        let w: u128 = (iw as u128) * (zoom_micros as u128) / 1000000;
        let h: u128 = (ih as u128) * (zoom_micros as u128) / 1000000;
        (clamp_axis(w), clamp_axis(h))
    } else if width > 0 && height > 0 {
        (clamp_axis(width as u128), clamp_axis(height as u128))
    } else if width > 0 {
        proof {
            assert((ih as int) * (width as int) <= 0xffff_ffff * 0x7fff_ffff) by (nonlinear_arith)
                requires
                    ih <= 0xffff_ffffu64,
                    0 < width <= 0x7fff_ffff,
            ;
        }
        let h: u128 = (ih as u128) * (width as u128) / (iw as u128);
        (clamp_axis(width as u128), clamp_axis(h))
    } else if height > 0 {
        proof {
            assert((iw as int) * (height as int) <= 0xffff_ffff * 0x7fff_ffff) by (nonlinear_arith)
                requires
                    iw <= 0xffff_ffffu64,
                    0 < height <= 0x7fff_ffff,
            ;
        }
        let w: u128 = (iw as u128) * (height as u128) / (ih as u128);
        (clamp_axis(w), clamp_axis(height as u128))
    } else {
        (clamp_axis(iw as u128), clamp_axis(ih as u128))
    }
}

/// Whatever the directives and whatever the intrinsic size, each
/// resolved axis lies in the inclusive range `[1, 16384]`.
pub proof fn lemma_resolved_size_is_clamped(iw: int, ih: int, z: int, w: int, h: int)
    ensures
        1 <= spec_resolve_dimensions(iw, ih, z, w, h).0 <= 16384,
        1 <= spec_resolve_dimensions(iw, ih, z, w, h).1 <= 16384,
{
}

/// A positive zoom factor alone decides the raster size: each axis is the
/// zoom-scaled intrinsic axis, clamped, and the requested width and height
/// play no part in the outcome.
pub proof fn lemma_zoom_decides(iw: int, ih: int, z: int, w1: int, h1: int, w2: int, h2: int)
    requires
        z > 0,
    ensures
        spec_resolve_dimensions(iw, ih, z, w1, h1) == (
            clamp_dim(iw * z / 1000000),
            clamp_dim(ih * z / 1000000),
        ),
        spec_resolve_dimensions(iw, ih, z, w1, h1) == spec_resolve_dimensions(iw, ih, z, w2, h2),
{
}

/// Without a zoom, explicit positive width and height are used verbatim
/// up to clamping, whatever the intrinsic size: the document is stretched
/// to fit, and two documents of different intrinsic sizes resolve alike.
pub proof fn lemma_explicit_size_decides(
    iw1: int,
    ih1: int,
    iw2: int,
    ih2: int,
    w: int,
    h: int,
)
    requires
        w > 0,
        h > 0,
    ensures
        spec_resolve_dimensions(iw1, ih1, 0, w, h) == (clamp_dim(w), clamp_dim(h)),
        spec_resolve_dimensions(iw1, ih1, 0, w, h) == spec_resolve_dimensions(iw2, ih2, 0, w, h),
{
}

/// A positive width alone drives an aspect-preserving scale: the height
/// becomes the intrinsic height scaled by `w / iw`, truncated, clamped.
pub proof fn lemma_width_only_preserves_aspect(iw: int, ih: int, w: int, h: int)
    requires
        w > 0,
        h <= 0,
    ensures
        spec_resolve_dimensions(iw, ih, 0, w, h) == (clamp_dim(w), clamp_dim(ih * w / iw)),
{
}

/// A positive height alone drives an aspect-preserving scale: the width
/// becomes the intrinsic width scaled by `h / ih`, truncated, clamped.
pub proof fn lemma_height_only_preserves_aspect(iw: int, ih: int, w: int, h: int)
    requires
        w <= 0,
        h > 0,
    ensures
        spec_resolve_dimensions(iw, ih, 0, w, h) == (clamp_dim(iw * h / ih), clamp_dim(h)),
{
}

/// With no sizing directive at all the raster keeps the intrinsic size,
/// clamped to `[1, 16384]` on each axis.
pub proof fn lemma_no_directive_keeps_intrinsic(iw: int, ih: int, z: int, w: int, h: int)
    requires
        z <= 0,
        w <= 0,
        h <= 0,
    ensures
        spec_resolve_dimensions(iw, ih, z, w, h) == (clamp_dim(iw), clamp_dim(ih)),
{
}

} // verus!
