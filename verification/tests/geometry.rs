use gl_scene::attribute::position_attribute_layout;
use gl_scene::attribute::AttributeComponentType;
use gl_scene::geometry::geometry_positions;
use gl_scene::geometry::VERTEX_COUNT;

#[test]
fn geometry_is_exactly_the_eighteen_pairs() {
    let expected: Vec<u32> = vec![
        // left column
        0, 0, 30, 0, 0, 150, 0, 150, 30, 0, 30, 150,
        // top rung
        30, 0, 100, 0, 30, 30, 30, 30, 100, 0, 100, 30,
        // middle rung
        30, 60, 67, 60, 30, 90, 30, 90, 67, 60, 67, 90,
    ];
    assert_eq!(geometry_positions(), expected);
}

#[test]
fn geometry_has_one_pair_per_vertex() {
    assert_eq!(VERTEX_COUNT, 18);
    assert_eq!(geometry_positions().len(), 36);
}

#[test]
fn geometry_converts_exactly_to_single_precision() {
    // Every coordinate is a small whole number, so the upload as 32-bit
    // floats loses nothing: converting back recovers the integer exactly.
    for v in geometry_positions() {
        let f = v as f32;
        assert_eq!(f as u32, v);
    }
}

#[test]
fn position_layout_reads_two_packed_floats() {
    let layout = position_attribute_layout();
    assert_eq!(layout.components, 2);
    assert_eq!(layout.component_type, AttributeComponentType::Float32);
    assert!(!layout.normalized);
    assert_eq!(layout.stride, 0);
    assert_eq!(layout.offset, 0);
}
