use fugu::pipeline::{
    resolve_attributes, vertex_format_byte_size, vertex_format_components, vertex_format_type_code,
    BufferLayout, VertexAttribute, VertexFormat, VertexStep,
};

fn slot0(stride: i32) -> BufferLayout {
    BufferLayout { stride, step_func: VertexStep::PerVertex }
}

fn attr(name: &'static str, format: VertexFormat, buffer_index: usize) -> VertexAttribute {
    VertexAttribute { name, format, buffer_index }
}

#[test]
fn packed_layout_one_slot_three_attrs() {
    let buffers = [slot0(0)];
    let attrs = [
        attr("pos", VertexFormat::Float2, 0),
        attr("color", VertexFormat::Float3, 0),
        attr("uv", VertexFormat::Float2, 0),
    ];
    let locations = [0u32, 1, 2];
    let r = resolve_attributes(&buffers, &attrs, &locations);
    assert_eq!(r.len(), 1);
    let row = &r[0];
    assert_eq!(row.len(), 3);
    assert_eq!(row[0].offset, 0);
    assert_eq!(row[1].offset, 8);
    assert_eq!(row[2].offset, 20);
    for a in row {
        assert_eq!(a.stride, 28);
        assert_eq!(a.divisor, 0);
        assert_eq!(a.format, 0x1406);
    }
    assert_eq!(row[0].size, 2);
    assert_eq!(row[1].size, 3);
    assert_eq!(row[2].size, 2);
}

#[test]
fn inferred_stride_sums_byte_sizes_per_slot() {
    let buffers = [slot0(0), slot0(0)];
    let attrs = [
        attr("a", VertexFormat::Byte4, 0),
        attr("b", VertexFormat::Short2, 1),
        attr("c", VertexFormat::Float1, 0),
        attr("d", VertexFormat::Short3, 1),
    ];
    let locations = [10u32, 11, 12, 13];
    let r = resolve_attributes(&buffers, &attrs, &locations);
    assert_eq!(r.len(), 2);
    // slot 0: Byte4 (1 * 4 bytes) then Float1 (4 bytes) -> stride 8
    assert_eq!(r[0].len(), 2);
    assert_eq!(r[0][0].offset, 0);
    assert_eq!(r[0][1].offset, 4);
    assert_eq!(r[0][0].stride, 8);
    assert_eq!(r[0][1].stride, 8);
    // slot 1: Short2 (4 bytes) then Short3 (6 bytes) -> stride 10
    assert_eq!(r[1].len(), 2);
    assert_eq!(r[1][0].offset, 0);
    assert_eq!(r[1][1].offset, 4);
    assert_eq!(r[1][0].stride, 10);
    assert_eq!(r[1][1].stride, 10);
    assert_eq!(r[0][0].location, 10);
    assert_eq!(r[1][0].location, 11);
    assert_eq!(r[0][1].location, 12);
    assert_eq!(r[1][1].location, 13);
}

#[test]
fn explicit_stride_is_never_overridden() {
    let buffers = [slot0(40)];
    let attrs = [
        attr("pos", VertexFormat::Float2, 0),
        attr("color", VertexFormat::Float3, 0),
    ];
    let locations = [0u32, 1];
    let r = resolve_attributes(&buffers, &attrs, &locations);
    assert_eq!(r[0][0].stride, 40);
    assert_eq!(r[0][1].stride, 40);
    // offsets still advance by packed byte sizes
    assert_eq!(r[0][0].offset, 0);
    assert_eq!(r[0][1].offset, 8);
}

#[test]
fn per_instance_step_becomes_divisor() {
    let buffers = [
        slot0(0),
        BufferLayout { stride: 0, step_func: VertexStep::PerInstance(3) },
    ];
    let attrs = [
        attr("pos", VertexFormat::Float2, 0),
        attr("model", VertexFormat::Float4, 1),
    ];
    let locations = [0u32, 1];
    let r = resolve_attributes(&buffers, &attrs, &locations);
    assert_eq!(r[0][0].divisor, 0);
    assert_eq!(r[1][0].divisor, 3);
}

#[test]
fn resolution_is_idempotent_up_to_locations() {
    let buffers = [slot0(0), BufferLayout { stride: 12, step_func: VertexStep::PerInstance(1) }];
    let attrs = [
        attr("a", VertexFormat::Float3, 0),
        attr("b", VertexFormat::Byte2, 1),
        attr("c", VertexFormat::Short4, 0),
    ];
    let first = resolve_attributes(&buffers, &attrs, &[5u32, 6, 7]);
    let second = resolve_attributes(&buffers, &attrs, &[70u32, 80, 90]);
    assert_eq!(first.len(), second.len());
    for (row1, row2) in first.iter().zip(second.iter()) {
        assert_eq!(row1.len(), row2.len());
        for (a1, a2) in row1.iter().zip(row2.iter()) {
            assert_eq!(a1.format, a2.format);
            assert_eq!(a1.offset, a2.offset);
            assert_eq!(a1.stride, a2.stride);
            assert_eq!(a1.divisor, a2.divisor);
            assert_eq!(a1.size, a2.size);
        }
    }
}

#[test]
fn format_byte_sizes_and_components() {
    let cases = [
        (VertexFormat::Float1, 4, 1, 0x1406),
        (VertexFormat::Float2, 8, 2, 0x1406),
        (VertexFormat::Float3, 12, 3, 0x1406),
        (VertexFormat::Float4, 16, 4, 0x1406),
        (VertexFormat::Byte1, 1, 1, 0x1400),
        (VertexFormat::Byte2, 2, 2, 0x1400),
        (VertexFormat::Byte3, 3, 3, 0x1400),
        (VertexFormat::Byte4, 4, 4, 0x1400),
        (VertexFormat::Short1, 2, 1, 0x1402),
        (VertexFormat::Short2, 4, 2, 0x1402),
        (VertexFormat::Short3, 6, 3, 0x1402),
        (VertexFormat::Short4, 8, 4, 0x1402),
    ];
    for (format, bytes, components, code) in cases {
        assert_eq!(vertex_format_byte_size(format), bytes);
        assert_eq!(vertex_format_components(format), components);
        assert_eq!(vertex_format_type_code(format), code);
    }
}

#[test]
fn buffer_layout_default_is_unset_per_vertex() {
    let layout = BufferLayout::default();
    assert_eq!(layout.stride, 0);
    assert!(matches!(layout.step_func, VertexStep::PerVertex));
    assert!(matches!(VertexStep::default(), VertexStep::PerVertex));
}
