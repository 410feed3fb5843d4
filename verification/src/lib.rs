//! A verified model of a one-shot GPU rasterization pipeline that renders a
//! block letter built from three rectangles.
//!
//! The library holds everything the pipeline decides or computes on plain
//! values: shader sources, the classification of driver reports into success
//! or diagnostic errors, the vertex geometry, the attribute layout, the exact
//! pixel-to-clip-space transform, and the ordered command plan for one frame.
//! The host side (canvas lookup, the GPU context, and the calls that carry
//! each command out) lives outside the library and hands it plain values.
//!
//! Fractional quantities that the pipeline only forwards to the GPU (the fill
//! color and the translation uniform) are carried as IEEE-754 single-precision
//! bit patterns, so the plan for a frame is an exact function of its inputs.

pub mod attribute;
pub mod error;
pub mod geometry;
pub mod program;
pub mod render;
pub mod scene;
pub mod shader;
pub mod transform;
