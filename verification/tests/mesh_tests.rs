use cgmath::{Matrix4, Vector3, Vector4};

use meshcore::transform::clip_conversion_matrix;
use meshcore::{Attr2, Attr3, Geometry, GeometryError, IndexFormat, Mesh2, Mesh3, Pos3};

fn pos(x: f32, y: f32, z: f32) -> Pos3 {
    Pos3 { x: x.to_bits(), y: y.to_bits(), z: z.to_bits() }
}

fn at2(u: f32, v: f32) -> Attr2 {
    Attr2 { u: u.to_bits(), v: v.to_bits() }
}

fn at3(x: f32, y: f32, z: f32) -> Attr3 {
    Attr3 { x: x.to_bits(), y: y.to_bits(), z: z.to_bits() }
}

fn push_f32(out: &mut Vec<u8>, x: f32) {
    out.extend_from_slice(&x.to_bits().to_le_bytes());
}

fn clip_matrix_f32() -> Matrix4<f32> {
    let m = clip_conversion_matrix();
    Matrix4::new(
        f32::from_bits(m.c0r0),
        f32::from_bits(m.c0r1),
        f32::from_bits(m.c0r2),
        f32::from_bits(m.c0r3),
        f32::from_bits(m.c1r0),
        f32::from_bits(m.c1r1),
        f32::from_bits(m.c1r2),
        f32::from_bits(m.c1r3),
        f32::from_bits(m.c2r0),
        f32::from_bits(m.c2r1),
        f32::from_bits(m.c2r2),
        f32::from_bits(m.c2r3),
        f32::from_bits(m.c3r0),
        f32::from_bits(m.c3r1),
        f32::from_bits(m.c3r2),
        f32::from_bits(m.c3r3),
    )
}

fn clip_transform(p: Vector3<f32>) -> Pos3 {
    let h = clip_matrix_f32() * Vector4::new(p.x, p.y, p.z, 1.0);
    let d = h.truncate() / h.w;
    Pos3 { x: d.x.to_bits(), y: d.y.to_bits(), z: d.z.to_bits() }
}

#[test]
fn empty_mesh_is_valid() {
    let positions: Vec<Pos3> = vec![];
    let indices: Vec<usize> = vec![];
    let attribs: Vec<Attr2> = vec![];
    let m = Mesh2::new(&positions, &indices, &attribs).unwrap();
    assert_eq!(m.get_num_indices(), 0);
    assert_eq!(m.get_index_format(), IndexFormat::Uint16);
    assert!(m.get_vertex_raw().is_empty());
    assert!(m.get_index_raw().is_empty());
}

#[test]
fn concrete_quad_scenario() {
    let input = vec![
        Vector3::new(0.0f32, 0.0, 0.0),
        Vector3::new(1.0f32, 0.0, 0.0),
        Vector3::new(1.0f32, 1.0, 0.0),
        Vector3::new(0.0f32, 1.0, 0.0),
    ];
    let positions: Vec<Pos3> = input.iter().map(|p| clip_transform(*p)).collect();
    let attribs = vec![at2(0.0, 1.0), at2(1.0, 1.0), at2(1.0, 0.0), at2(0.0, 0.0)];
    let indices: Vec<usize> = vec![0, 1, 2, 0, 2, 3];
    let m = Mesh2::new(&positions, &indices, &attribs).unwrap();

    assert_eq!(m.get_index_format(), IndexFormat::Uint16);
    assert_eq!(m.get_num_indices(), 6);
    let vbytes = m.get_vertex_raw();
    assert_eq!(vbytes.len(), 4 * 20);
    // vertex 0: x and y unchanged, z mapped to one half
    assert_eq!(&vbytes[0..4], &0.0f32.to_bits().to_le_bytes());
    assert_eq!(&vbytes[4..8], &0.0f32.to_bits().to_le_bytes());
    assert_eq!(&vbytes[8..12], &0.5f32.to_bits().to_le_bytes());
    // whole buffer: (x, y, one half, u, v) per input corner
    let uvs: [(f32, f32); 4] = [(0.0, 1.0), (1.0, 1.0), (1.0, 0.0), (0.0, 0.0)];
    let mut expected: Vec<u8> = Vec::new();
    for (p, (u, v)) in input.iter().zip(uvs.iter()) {
        push_f32(&mut expected, p.x);
        push_f32(&mut expected, p.y);
        push_f32(&mut expected, 0.5);
        push_f32(&mut expected, *u);
        push_f32(&mut expected, *v);
    }
    assert_eq!(vbytes, expected);
    let mut ibytes: Vec<u8> = Vec::new();
    for i in [0u16, 1, 2, 0, 2, 3] {
        ibytes.extend_from_slice(&i.to_le_bytes());
    }
    assert_eq!(m.get_index_raw(), ibytes);
}

#[test]
fn width_boundary_at_65535_vertices() {
    let n: usize = 65535;
    let positions: Vec<Pos3> = (0..n).map(|_| pos(0.0, 0.0, 0.0)).collect();
    let attribs: Vec<Attr2> = (0..n).map(|_| at2(0.0, 0.0)).collect();
    let indices: Vec<usize> = vec![0, 65534];
    let m = Mesh2::new(&positions, &indices, &attribs).unwrap();
    assert_eq!(m.get_index_format(), IndexFormat::Uint16);
    assert_eq!(m.get_num_indices(), 2);
    let mut ibytes: Vec<u8> = Vec::new();
    ibytes.extend_from_slice(&0u16.to_le_bytes());
    ibytes.extend_from_slice(&65534u16.to_le_bytes());
    assert_eq!(m.get_index_raw(), ibytes);
}

#[test]
fn width_boundary_at_65536_vertices() {
    let n: usize = 65536;
    let positions: Vec<Pos3> = (0..n).map(|_| pos(0.0, 0.0, 0.0)).collect();
    let attribs: Vec<Attr2> = (0..n).map(|_| at2(0.0, 0.0)).collect();
    let indices: Vec<usize> = vec![0, 65535];
    let m = Mesh2::new(&positions, &indices, &attribs).unwrap();
    assert_eq!(m.get_index_format(), IndexFormat::Uint32);
    assert_eq!(m.get_num_indices(), 2);
    let mut ibytes: Vec<u8> = Vec::new();
    ibytes.extend_from_slice(&0u32.to_le_bytes());
    ibytes.extend_from_slice(&65535u32.to_le_bytes());
    assert_eq!(m.get_index_raw(), ibytes);
}

#[test]
fn index_too_wide_for_16_bit_encoding_is_rejected() {
    let positions = vec![pos(0.0, 0.0, 0.0), pos(1.0, 0.0, 0.0)];
    let attribs = vec![at2(0.0, 0.0), at2(1.0, 1.0)];
    let indices: Vec<usize> = vec![0, 65536];
    let r = Mesh2::new(&positions, &indices, &attribs);
    assert!(matches!(r, Err(GeometryError::IndexOutOfRange)));
}

#[test]
fn wide_index_is_accepted_in_32_bit_encoding() {
    let n: usize = 65536;
    let positions: Vec<Pos3> = (0..n).map(|_| pos(0.0, 0.0, 0.0)).collect();
    let attribs: Vec<Attr2> = (0..n).map(|_| at2(0.0, 0.0)).collect();
    let indices: Vec<usize> = vec![65536 - 1, 70000];
    let m = Mesh2::new(&positions, &indices, &attribs).unwrap();
    assert_eq!(m.get_index_format(), IndexFormat::Uint32);
    assert_eq!(m.get_num_indices(), 2);
}

#[test]
fn largest_16_bit_index_is_accepted_regardless_of_vertex_count() {
    // the range check is against the chosen width, not the vertex count
    let positions = vec![pos(0.0, 0.0, 0.0), pos(1.0, 0.0, 0.0)];
    let attribs = vec![at2(0.0, 0.0), at2(1.0, 1.0)];
    let indices: Vec<usize> = vec![0, 65535];
    let m = Mesh2::new(&positions, &indices, &attribs).unwrap();
    assert_eq!(m.get_index_format(), IndexFormat::Uint16);
    let mut ibytes: Vec<u8> = Vec::new();
    ibytes.extend_from_slice(&0u16.to_le_bytes());
    ibytes.extend_from_slice(&65535u16.to_le_bytes());
    assert_eq!(m.get_index_raw(), ibytes);
}

#[test]
fn mesh3_rejects_index_too_wide_for_16_bit_encoding() {
    let positions = vec![pos(0.0, 0.0, 0.0), pos(1.0, 0.0, 0.0)];
    let attribs = vec![at3(0.0, 0.0, 1.0), at3(1.0, 0.0, 0.0)];
    let indices: Vec<usize> = vec![0, 65536];
    let r = Mesh3::new(&positions, &indices, &attribs);
    assert!(matches!(r, Err(GeometryError::IndexOutOfRange)));
}

#[test]
fn mismatched_lengths_are_rejected() {
    let positions = vec![pos(0.0, 0.0, 0.0), pos(1.0, 0.0, 0.0)];
    let attribs = vec![at2(0.0, 0.0)];
    let indices: Vec<usize> = vec![0];
    let r = Mesh2::new(&positions, &indices, &attribs);
    assert!(matches!(r, Err(GeometryError::LengthMismatch)));

    let attribs3 = vec![at3(0.0, 0.0, 1.0)];
    let r3 = Mesh3::new(&positions, &indices, &attribs3);
    assert!(matches!(r3, Err(GeometryError::LengthMismatch)));
}

#[test]
fn num_indices_equals_input_length() {
    let positions = vec![pos(0.0, 0.0, 0.0), pos(1.0, 0.0, 0.0), pos(0.0, 1.0, 0.0)];
    let attribs = vec![at2(0.0, 0.0), at2(1.0, 0.0), at2(0.0, 1.0)];
    let indices: Vec<usize> = vec![0, 1, 2, 2, 1, 0, 1, 2, 0];
    let m = Mesh2::new(&positions, &indices, &attribs).unwrap();
    assert_eq!(m.get_num_indices(), indices.len());
    assert_eq!(m.get_index_raw().len(), indices.len() * 2);
}

#[test]
fn repeated_queries_are_byte_identical() {
    let positions = vec![pos(0.25, -0.75, 0.125), pos(1.5, 2.5, -3.5)];
    let attribs = vec![at2(0.1, 0.9), at2(0.8, 0.2)];
    let indices: Vec<usize> = vec![0, 1, 0];
    let m = Mesh2::new(&positions, &indices, &attribs).unwrap();
    assert_eq!(m.get_vertex_raw(), m.get_vertex_raw());
    assert_eq!(m.get_index_raw(), m.get_index_raw());
    assert_eq!(m.get_index_format(), m.get_index_format());
    assert_eq!(m.get_num_indices(), m.get_num_indices());
}

#[test]
fn vertex_order_and_values_are_preserved() {
    let positions = vec![pos(1.0, 2.0, 3.0), pos(4.0, 5.0, 6.0), pos(7.0, 8.0, 9.0)];
    let attribs = vec![at2(0.1, 0.2), at2(0.3, 0.4), at2(0.5, 0.6)];
    let indices: Vec<usize> = vec![0, 1, 2];
    let m = Mesh2::new(&positions, &indices, &attribs).unwrap();
    let floats: [[f32; 5]; 3] = [
        [1.0, 2.0, 3.0, 0.1, 0.2],
        [4.0, 5.0, 6.0, 0.3, 0.4],
        [7.0, 8.0, 9.0, 0.5, 0.6],
    ];
    let mut expected: Vec<u8> = Vec::new();
    for rec in floats.iter() {
        for v in rec.iter() {
            push_f32(&mut expected, *v);
        }
    }
    assert_eq!(m.get_vertex_raw(), expected);
}

#[test]
fn mesh3_packs_24_byte_records() {
    let positions = vec![pos(1.0, 2.0, 3.0), pos(-1.0, -2.0, -3.0)];
    let attribs = vec![at3(0.0, 1.0, 0.0), at3(1.0, 0.0, 0.0)];
    let indices: Vec<usize> = vec![0, 1, 0];
    let m = Mesh3::new(&positions, &indices, &attribs).unwrap();
    assert_eq!(m.get_num_indices(), 3);
    assert_eq!(m.get_index_format(), IndexFormat::Uint16);
    let floats: [[f32; 6]; 2] = [
        [1.0, 2.0, 3.0, 0.0, 1.0, 0.0],
        [-1.0, -2.0, -3.0, 1.0, 0.0, 0.0],
    ];
    let mut expected: Vec<u8> = Vec::new();
    for rec in floats.iter() {
        for v in rec.iter() {
            push_f32(&mut expected, *v);
        }
    }
    assert_eq!(m.get_vertex_raw(), expected);
}

#[test]
fn vertex_descriptors_match_record_layout() {
    let positions = vec![pos(0.0, 0.0, 0.0)];
    let attribs2 = vec![at2(0.0, 0.0)];
    let attribs3 = vec![at3(0.0, 0.0, 0.0)];
    let indices: Vec<usize> = vec![0];
    let m2 = Mesh2::new(&positions, &indices, &attribs2).unwrap();
    let d2 = m2.vertex_desc();
    assert_eq!(d2.stride, 20);
    assert_eq!(d2.slots.len(), 2);
    assert_eq!(d2.slots[0].offset, 0);
    assert_eq!(d2.slots[0].components, 3);
    assert_eq!(d2.slots[0].shader_location, 0);
    assert_eq!(d2.slots[1].offset, 12);
    assert_eq!(d2.slots[1].components, 2);
    assert_eq!(d2.slots[1].shader_location, 1);

    let m3 = Mesh3::new(&positions, &indices, &attribs3).unwrap();
    let d3 = m3.vertex_desc();
    assert_eq!(d3.stride, 24);
    assert_eq!(d3.slots.len(), 2);
    assert_eq!(d3.slots[1].offset, 12);
    assert_eq!(d3.slots[1].components, 3);
    assert_eq!(d3.slots[1].shader_location, 1);
}
