//! The read layout that binds the `a_position` input of the vertex stage to
//! the uploaded vertex buffer.

use vstd::prelude::*;

verus! {

/// The numeric type of one attribute component, as declared to the GPU.
#[derive(Clone, Copy, PartialEq, Eq, Structural, Debug)]
pub enum AttributeComponentType {
    /// A 32-bit floating-point component.
    Float32,
}

/// How an enabled attribute reads from the bound vertex buffer: component
/// count per vertex, component type, whether integer data is normalized, the
/// byte stride between vertices (0 meaning "computed from count and type"),
/// and the byte offset of the first vertex.
#[derive(Clone, Copy, PartialEq, Eq, Structural, Debug)]
pub struct AttributeLayout {
    pub components: u32,
    pub component_type: AttributeComponentType,
    pub normalized: bool,
    pub stride: u32,
    pub offset: u32,
}

/// The one layout this pipeline uses for `a_position`: two 32-bit float
/// components per vertex, not normalized, tightly packed from the start of
/// the buffer. Configured once and reused by every draw.
pub fn position_attribute_layout() -> (r: AttributeLayout)
    ensures
        r.components == 2,
        r.component_type is Float32,
        !r.normalized,
        r.stride == 0,
        r.offset == 0,
{
    AttributeLayout {
        components: 2,
        component_type: AttributeComponentType::Float32,
        normalized: false,
        stride: 0,
        offset: 0,
    }
}

} // verus!
