//! The fixed inputs of the one scene this pipeline draws: the pixel-space
//! translation of the shape and its fill color.

use vstd::prelude::*;

use crate::render::ColorBits;
use crate::render::Vec2Bits;

verus! {

/// The shape's pixel-space translation, `(150, 130)`: the left column's
/// top-left corner — vertex `(0, 0)` — lands at pixel `(150, 130)`.
pub const SCENE_TRANSLATION_X: u32 = 150;

/// See `SCENE_TRANSLATION_X`.
pub const SCENE_TRANSLATION_Y: u32 = 130;

/// The translation as the single-precision bit patterns of `150.0` and
/// `130.0`, ready for the `u_translation` upload.
pub open spec fn spec_scene_translation() -> Vec2Bits {
    Vec2Bits { x: 0x4316_0000, y: 0x4302_0000 }
}

/// Hands out the fixed translation in upload form.
pub fn scene_translation() -> (r: Vec2Bits)
    ensures
        r == spec_scene_translation(),
{
    Vec2Bits { x: 0x4316_0000, y: 0x4302_0000 }
}

/// The fill color `(0.6, 0.3, 0.6, 1.0)` as single-precision bit patterns.
pub open spec fn spec_scene_fill_color() -> ColorBits {
    ColorBits { red: 0x3F19_999A, green: 0x3E99_999A, blue: 0x3F19_999A, alpha: 0x3F80_0000 }
}

/// Hands out the fixed fill color.
pub fn scene_fill_color() -> (r: ColorBits)
    ensures
        r == spec_scene_fill_color(),
{
    ColorBits { red: 0x3F19_999A, green: 0x3E99_999A, blue: 0x3F19_999A, alpha: 0x3F80_0000 }
}

} // verus!
