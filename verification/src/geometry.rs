//! The fixed vertex geometry: a block letter built from three rectangles
//! (a vertical left column, a top rung, and a middle rung), given as a
//! triangle list of pixel-space positions.

use vstd::prelude::*;

verus! {

/// Number of vertices in the triangle list (six triangles, three per
/// rectangle). Every draw covers exactly this many vertices from offset 0.
pub const VERTEX_COUNT: u32 = 18;

/// The 18 vertex positions, interleaved as x,y pairs in pixel space.
/// Pairs 0..6 form the left column, 6..12 the top rung, 12..18 the middle
/// rung; each rectangle is two triangles.
pub open spec fn spec_geometry() -> Seq<u32> {
    seq![
        0u32, 0, 30, 0, 0, 150, 0, 150, 30, 0, 30, 150,
        30, 0, 100, 0, 30, 30, 30, 30, 100, 0, 100, 30,
        30, 60, 67, 60, 30, 90, 30, 90, 67, 60, 67, 90,
    ]
}

/// Builds the vertex position list that is uploaded once into the GPU-resident
/// buffer: exactly the 18 pairs of `spec_geometry`, in order.
pub fn geometry_positions() -> (r: Vec<u32>)
    ensures
        r@ == spec_geometry(),
        r@.len() == 2 * VERTEX_COUNT,
{
    let mut v: Vec<u32> = Vec::new();
    v.push(0);
    v.push(0);
    v.push(30);
    v.push(0);
    v.push(0);
    v.push(150);
    v.push(0);
    v.push(150);
    v.push(30);
    v.push(0);
    v.push(30);
    v.push(150);
    v.push(30);
    v.push(0);
    v.push(100);
    v.push(0);
    v.push(30);
    v.push(30);
    v.push(30);
    v.push(30);
    v.push(100);
    v.push(0);
    v.push(100);
    v.push(30);
    v.push(30);
    v.push(60);
    v.push(67);
    v.push(60);
    v.push(30);
    v.push(90);
    v.push(30);
    v.push(90);
    v.push(67);
    v.push(60);
    v.push(67);
    v.push(90);
    proof {
        assert(v@ =~= spec_geometry());
    }
    v
}

} // verus!
