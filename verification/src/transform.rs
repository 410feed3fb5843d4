//! The exact coordinate transform the vertex stage applies: a pixel-space
//! position is translated, then mapped to clip space by
//! `clip = ((position + translation) / resolution * 2 - 1) * (1, -1)`.
//!
//! The library states the transform exactly, over integers: a clip coordinate
//! is the rational `numerator / extent`, with
//! `x_num = 2 * (px + tx) - width` and `y_num = height - 2 * (py + ty)`,
//! which equal `((p + t) / extent * 2 - 1)` and its negation without any
//! rounding.

use vstd::prelude::*;

verus! {

/// Where a vertex lands in pixel space: its position plus the translation.
pub open spec fn spec_pixel_position(p: int, t: int) -> int {
    p + t
}

/// Numerator of the clip-space x coordinate over denominator `width`:
/// `(p + t) / width * 2 - 1 == (2 * (p + t) - width) / width`.
pub open spec fn spec_clip_x_numerator(p: int, t: int, width: int) -> int {
    2 * spec_pixel_position(p, t) - width
}

/// Numerator of the clip-space y coordinate over denominator `height`:
/// `-((p + t) / height * 2 - 1) == (height - 2 * (p + t)) / height`.
/// The sign flip maps pixel space (y grows downward) to clip space (y grows
/// upward).
pub open spec fn spec_clip_y_numerator(p: int, t: int, height: int) -> int {
    height - 2 * spec_pixel_position(p, t)
}

/// An exact clip-space position: `x = x_num / width`, `y = y_num / height`.
#[derive(Clone, Copy, PartialEq, Eq, Structural, Debug)]
pub struct ClipPosition {
    pub x_num: i64,
    pub y_num: i64,
    pub width: i64,
    pub height: i64,
}

/// Computes the exact clip-space position of the pixel-space vertex
/// `(px, py)` under translation `(tx, ty)` on a canvas of the given
/// resolution. The bounds only keep the doubled sums inside `i64`.
pub fn clip_position(px: i64, py: i64, tx: i64, ty: i64, width: i64, height: i64) -> (r:
    ClipPosition)
    requires
        0 < width <= 0x4000_0000,
        0 < height <= 0x4000_0000,
        -0x4000_0000 <= px <= 0x4000_0000,
        -0x4000_0000 <= py <= 0x4000_0000,
        -0x4000_0000 <= tx <= 0x4000_0000,
        -0x4000_0000 <= ty <= 0x4000_0000,
    ensures
        r.x_num == spec_clip_x_numerator(px as int, tx as int, width as int),
        r.y_num == spec_clip_y_numerator(py as int, ty as int, height as int),
        r.width == width,
        r.height == height,
{
    ClipPosition { x_num: 2 * (px + tx) - width, y_num: height - 2 * (py + ty), width, height }
}

/// Law: translating by an extra `d` moves a vertex's pixel-space position by
/// exactly `d` along that axis, whatever the vertex.
pub proof fn lemma_translation_shifts_pixels(p: int, t: int, d: int)
    ensures
        spec_pixel_position(p, t + d) == spec_pixel_position(p, t) + d,
{
}

/// Law: translating by an extra `d` moves the clip-space numerators by
/// exactly `2 * d` (downward for y), while the denominators — the canvas
/// extents — are unchanged; so in pixel space the rendered position moves by
/// exactly `d`.
pub proof fn lemma_translation_shifts_clip(p: int, t: int, d: int, extent: int)
    ensures
        spec_clip_x_numerator(p, t + d, extent) == spec_clip_x_numerator(p, t, extent) + 2 * d,
        spec_clip_y_numerator(p, t + d, extent) == spec_clip_y_numerator(p, t, extent) - 2 * d,
{
}

/// Law: a vertex's clip coordinate lies in the visible range `[-1, 1]`
/// exactly when its translated pixel position lies on the canvas, `[0, extent]`
/// (positions outside are clipped at the canvas edges).
pub proof fn lemma_visible_iff_on_canvas(p: int, t: int, extent: int)
    requires
        extent > 0,
    ensures
        (-extent <= spec_clip_x_numerator(p, t, extent) <= extent) <==> (0 <= spec_pixel_position(
            p,
            t,
        ) <= extent),
        (-extent <= spec_clip_y_numerator(p, t, extent) <= extent) <==> (0 <= spec_pixel_position(
            p,
            t,
        ) <= extent),
{
}

} // verus!
