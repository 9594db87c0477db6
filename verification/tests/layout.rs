use gemo::backends::wgpu::buffer::index_buffer_contents;
use gemo::backends::wgpu::vertex::{desc, layout_of, VertexAttribute, VertexFormat, VertexStepMode};

#[test]
fn float32x3_takes_twelve_bytes() {
    assert_eq!(VertexFormat::Float32x3.size(), 12);
}

#[test]
fn renderer_vertex_is_position_then_color() {
    let l = desc();
    assert_eq!(l.array_stride, 24);
    assert_eq!(l.step_mode, VertexStepMode::Vertex);
    assert_eq!(
        l.attributes,
        vec![
            VertexAttribute { offset: 0, shader_location: 0, format: VertexFormat::Float32x3 },
            VertexAttribute { offset: 12, shader_location: 1, format: VertexFormat::Float32x3 },
        ]
    );
}

#[test]
fn attributes_are_laid_end_to_end() {
    let l = layout_of(&vec![VertexFormat::Float32x3; 3]);
    assert_eq!(l.array_stride, 36);
    let offsets: Vec<u64> = l.attributes.iter().map(|a| a.offset).collect();
    assert_eq!(offsets, vec![0, 12, 24]);
    let locations: Vec<u32> = l.attributes.iter().map(|a| a.shader_location).collect();
    assert_eq!(locations, vec![0, 1, 2]);
}

#[test]
fn empty_layout_has_no_stride() {
    let l = layout_of(&vec![]);
    assert_eq!(l.array_stride, 0);
    assert!(l.attributes.is_empty());
}

#[test]
fn index_bytes_are_native_order() {
    let ix: Vec<u16> = vec![0, 1, 4, 1, 2, 4, 2, 3, 4, 0x0203];
    let bytes = index_buffer_contents(&ix);
    assert_eq!(bytes.len(), 2 * ix.len());
    let expected: Vec<u8> = ix.iter().flat_map(|v| v.to_ne_bytes()).collect();
    assert_eq!(bytes, expected);
    let le = vec![3u8, 2];
    let be = vec![2u8, 3];
    assert!(bytes[18..] == le[..] || bytes[18..] == be[..]);
}

#[test]
fn index_bytes_read_back() {
    let ix: Vec<u16> = vec![65535, 256, 7];
    let bytes = index_buffer_contents(&ix);
    let back: Vec<u16> = bytes.chunks(2).map(|c| u16::from_ne_bytes([c[0], c[1]])).collect();
    assert_eq!(back, ix);
}

#[test]
fn no_indices_no_bytes() {
    assert!(index_buffer_contents(&vec![]).is_empty());
}
