//! The plan for one frame: the ordered GPU commands that set the viewport,
//! clear the canvas, activate the program and vertex state, upload the
//! per-frame uniforms, and issue the draw call.

use vstd::prelude::*;

use crate::geometry::VERTEX_COUNT;

verus! {

/// A color as four IEEE-754 single-precision bit patterns (red, green, blue,
/// alpha). The pipeline never computes on a color; it forwards each channel's
/// bits untouched, so a frame plan is an exact function of its inputs.
#[derive(Clone, Copy, PartialEq, Eq, Structural, Debug)]
pub struct ColorBits {
    pub red: u32,
    pub green: u32,
    pub blue: u32,
    pub alpha: u32,
}

/// A 2-component vector as two IEEE-754 single-precision bit patterns,
/// forwarded untouched like a color.
#[derive(Clone, Copy, PartialEq, Eq, Structural, Debug)]
pub struct Vec2Bits {
    pub x: u32,
    pub y: u32,
}

/// The per-frame inputs: the canvas resolution in pixels (used both for the
/// viewport and for the `u_resolution` uniform), the fill color, and the
/// pixel-space translation applied to every vertex.
#[derive(Clone, Copy, PartialEq, Eq, Structural, Debug)]
pub struct FrameUniforms {
    pub width: u32,
    pub height: u32,
    pub color: ColorBits,
    pub translation: Vec2Bits,
}

/// Which uniform locations the by-name lookup found on the linked program.
/// An optimizing driver may eliminate an unused uniform; an absent location
/// is tolerated, and the command that would set it is skipped.
#[derive(Clone, Copy, PartialEq, Eq, Structural, Debug)]
pub struct UniformPresence {
    pub resolution: bool,
    pub color: bool,
    pub translation: bool,
}

/// The fixed background the color buffer is cleared to: opaque orange
/// `(1.0, 0.5, 0.0, 1.0)`, as single-precision bit patterns.
pub open spec fn spec_background_color() -> ColorBits {
    ColorBits { red: 0x3F80_0000, green: 0x3F00_0000, blue: 0, alpha: 0x3F80_0000 }
}

/// Hands out the fixed background clear color.
pub fn background_color() -> (r: ColorBits)
    ensures
        r == spec_background_color(),
{
    ColorBits { red: 0x3F80_0000, green: 0x3F00_0000, blue: 0, alpha: 0x3F80_0000 }
}

/// One GPU command of a frame. The host carries each out against its context;
/// the enum holds every value the call needs that the library decides.
#[derive(Clone, Copy, PartialEq, Eq, Structural, Debug)]
pub enum GlCommand {
    /// Map clip space to the full canvas: viewport (0, 0, width, height).
    SetViewport { width: u32, height: u32 },
    /// Set the color the next clear writes.
    SetClearColor { color: ColorBits },
    /// Clear the color buffer.
    ClearColorBuffer,
    /// Activate the linked program.
    UseProgram,
    /// Bind the precomputed vertex-array state (attribute layout + buffer).
    BindVertexArray,
    /// Set `u_resolution` to the canvas resolution.
    SetResolutionUniform { width: u32, height: u32 },
    /// Set `u_color` to the fill color.
    SetColorUniform { color: ColorBits },
    /// Set `u_translation` to the pixel-space offset.
    SetTranslationUniform { translation: Vec2Bits },
    /// Draw a triangle list of `count` vertices starting at `first`.
    DrawTriangles { first: u32, count: u32 },
}

/// The ordered commands of one frame. Order matters: the viewport, clear,
/// program and vertex-state bindings precede the uniform uploads, which
/// precede the draw that depends on them. A uniform whose location was not
/// found is skipped; everything else is unconditional.
pub open spec fn spec_render_commands(frame: FrameUniforms, present: UniformPresence) -> Seq<
    GlCommand,
> {
    let prefix = seq![
        GlCommand::SetViewport { width: frame.width, height: frame.height },
        GlCommand::SetClearColor { color: spec_background_color() },
        GlCommand::ClearColorBuffer,
        GlCommand::UseProgram,
        GlCommand::BindVertexArray,
    ];
    let with_resolution = if present.resolution {
        prefix.push(GlCommand::SetResolutionUniform { width: frame.width, height: frame.height })
    } else {
        prefix
    };
    let with_color = if present.color {
        with_resolution.push(GlCommand::SetColorUniform { color: frame.color })
    } else {
        with_resolution
    };
    let with_translation = if present.translation {
        with_color.push(GlCommand::SetTranslationUniform { translation: frame.translation })
    } else {
        with_color
    };
    with_translation.push(GlCommand::DrawTriangles { first: 0, count: VERTEX_COUNT })
}

/// Builds the command plan for one frame: exactly the sequence that
/// `spec_render_commands` states, in that order.
pub fn render_commands(frame: &FrameUniforms, present: &UniformPresence) -> (r: Vec<GlCommand>)
    ensures
        r@ == spec_render_commands(*frame, *present),
{
    let mut v: Vec<GlCommand> = Vec::new();
    v.push(GlCommand::SetViewport { width: frame.width, height: frame.height });
    v.push(GlCommand::SetClearColor { color: background_color() });
    v.push(GlCommand::ClearColorBuffer);
    v.push(GlCommand::UseProgram);
    v.push(GlCommand::BindVertexArray);
    if present.resolution {
        v.push(GlCommand::SetResolutionUniform { width: frame.width, height: frame.height });
    }
    if present.color {
        v.push(GlCommand::SetColorUniform { color: frame.color });
    }
    if present.translation {
        v.push(GlCommand::SetTranslationUniform { translation: frame.translation });
    }
    v.push(GlCommand::DrawTriangles { first: 0, count: VERTEX_COUNT });
    proof {
        assert(v@ =~= spec_render_commands(*frame, *present));
    }
    v
}

/// Law: rendering is deterministic, so repeating a frame is idempotent.
/// Two frames with equal inputs and equal uniform presence submit the same
/// commands, command for command.
pub proof fn lemma_render_plan_deterministic(
    frame1: FrameUniforms,
    present1: UniformPresence,
    frame2: FrameUniforms,
    present2: UniformPresence,
)
    requires
        frame1 == frame2,
        present1 == present2,
    ensures
        spec_render_commands(frame1, present1) == spec_render_commands(frame2, present2),
{
}

/// Law: between two frames that differ only in their translation (all
/// uniforms present), the command plans agree everywhere except at the one
/// command that uploads `u_translation`; so only the shape's position on the
/// canvas changes.
pub proof fn lemma_translation_changes_one_command(
    frame1: FrameUniforms,
    frame2: FrameUniforms,
    present: UniformPresence,
)
    requires
        frame1.width == frame2.width,
        frame1.height == frame2.height,
        frame1.color == frame2.color,
        present.resolution,
        present.color,
        present.translation,
    ensures
        spec_render_commands(frame1, present).len() == 9,
        spec_render_commands(frame2, present).len() == 9,
        forall|i: int|
            0 <= i < 9 && i != 7 ==> #[trigger] spec_render_commands(frame1, present)[i]
                == spec_render_commands(frame2, present)[i],
        spec_render_commands(frame1, present)[7] == (GlCommand::SetTranslationUniform {
            translation: frame1.translation,
        }),
        spec_render_commands(frame2, present)[7] == (GlCommand::SetTranslationUniform {
            translation: frame2.translation,
        }),
{
}

} // verus!
