use nalgebra_glm::vec3;

use step_mesh::mesh::{stl_bytes, Triangle, Vertex};

fn vert(x: f64, y: f64, z: f64) -> Vertex {
    Vertex { pos: vec3(x, y, z), norm: vec3(0.0, 0.0, 1.0), color: vec3(0.0, 0.0, 0.0) }
}

#[test]
fn stl_single_triangle_layout() {
    let vertices = vec![vert(0.0, 0.0, 0.0), vert(1.0, 0.25, 0.0), vert(0.0, 1.5, -2.0)];
    let triangles = vec![Triangle { verts: [0, 1, 2] }];
    let bytes = stl_bytes(&vertices, &triangles).unwrap();
    // Header, count field, and one fifty-byte record.
    assert_eq!(bytes.len(), 80 + 4 + 50);
    for b in &bytes[0..80] {
        assert_eq!(*b, b'x');
    }
    assert_eq!(&bytes[80..84], &[1, 0, 0, 0]);
    // Twelve zeroed normal bytes.
    assert_eq!(&bytes[84..96], &[0u8; 12]);
    // Each vertex is its three coordinates cast to f32, little-endian.
    let mut at = 96;
    for v in &vertices {
        for c in [v.pos.x, v.pos.y, v.pos.z] {
            assert_eq!(&bytes[at..at + 4], &(c as f32).to_le_bytes());
            at += 4;
        }
    }
    // The trailing attribute field is zero.
    assert_eq!(&bytes[at..at + 2], &[0u8, 0u8]);
}

#[test]
fn stl_empty_mesh() {
    let vertices: Vec<Vertex> = Vec::new();
    let triangles: Vec<Triangle> = Vec::new();
    let bytes = stl_bytes(&vertices, &triangles).unwrap();
    assert_eq!(bytes.len(), 84);
    assert_eq!(&bytes[80..84], &[0, 0, 0, 0]);
}

#[test]
fn stl_two_triangles_length() {
    let vertices = vec![vert(0.0, 0.0, 0.0), vert(1.0, 0.0, 0.0), vert(0.0, 1.0, 0.0)];
    let triangles = vec![Triangle { verts: [0, 1, 2] }, Triangle { verts: [2, 1, 0] }];
    let bytes = stl_bytes(&vertices, &triangles).unwrap();
    assert_eq!(bytes.len(), 84 + 100);
    assert_eq!(&bytes[80..84], &[2, 0, 0, 0]);
}
