use nalgebra_glm::{dot, vec1, vec3};

use step_mesh::entities::Entity;
use step_mesh::triangulate::{triangulate, Triangulator};

/// Half of a unit cylinder barrel between z = 0 and z = 1: bounded below and
/// above by half-circle arcs and on the sides by two vertical lines.
fn barrel_store(same_sense: bool) -> Vec<Entity> {
    vec![
        Entity::CartesianPoint { coords: vec3(0.0, 0.0, 0.0) },
        Entity::Direction { dir: vec3(0.0, 0.0, 1.0) },
        Entity::Direction { dir: vec3(1.0, 0.0, 0.0) },
        Entity::Axis2Placement3d { location: 0, axis: 1, ref_direction: 2 },
        Entity::CylindricalSurface { position: 3, radius: vec1(1.0) },
        Entity::CartesianPoint { coords: vec3(1.0, 0.0, 0.0) },
        Entity::CartesianPoint { coords: vec3(-1.0, 0.0, 0.0) },
        Entity::CartesianPoint { coords: vec3(-1.0, 0.0, 1.0) },
        Entity::CartesianPoint { coords: vec3(1.0, 0.0, 1.0) },
        Entity::VertexPoint { geometry: 5 },
        Entity::VertexPoint { geometry: 6 },
        Entity::VertexPoint { geometry: 7 },
        Entity::VertexPoint { geometry: 8 },
        Entity::Circle { position: 3, radius: vec1(1.0) },
        Entity::CartesianPoint { coords: vec3(0.0, 0.0, 1.0) },
        Entity::Axis2Placement3d { location: 14, axis: 1, ref_direction: 2 },
        Entity::Circle { position: 15, radius: vec1(1.0) },
        Entity::Vector { orientation: 1, magnitude: vec1(1.0) },
        Entity::Line { point: 6, direction: 17 },
        Entity::Line { point: 8, direction: 17 },
        Entity::EdgeCurve { start: 9, end: 10, geometry: 13, same_sense: true },
        Entity::EdgeCurve { start: 10, end: 11, geometry: 18, same_sense: true },
        Entity::EdgeCurve { start: 11, end: 12, geometry: 16, same_sense: false },
        Entity::EdgeCurve { start: 12, end: 9, geometry: 19, same_sense: true },
        Entity::OrientedEdge { element: 20, orientation: true },
        Entity::OrientedEdge { element: 21, orientation: true },
        Entity::OrientedEdge { element: 22, orientation: true },
        Entity::OrientedEdge { element: 23, orientation: true },
        Entity::EdgeLoop { edges: vec![24, 25, 26, 27] },
        Entity::FaceBound { bound: 28, orientation: true },
        Entity::AdvancedFace { bounds: vec![29], surface: 4, same_sense },
    ]
}

#[test]
fn cylinder_face_triangulates() {
    let store = barrel_store(true);
    let t = Triangulator::run(&store).unwrap();
    assert_eq!(t.skipped.len(), 0);
    assert!(t.triangles.len() > 0);
    for tri in &t.triangles {
        for &ix in tri.verts.iter() {
            assert!((ix as usize) < t.vertices.len());
        }
    }
    // Every boundary vertex lies on the unit cylinder and carries a unit
    // normal pointing radially outward.
    for v in &t.vertices {
        let r2 = v.pos.x * v.pos.x + v.pos.y * v.pos.y;
        assert!((r2 - 1.0).abs() < 1e-9);
        assert!((nalgebra_glm::length(&v.norm) - 1.0).abs() < 1e-9);
        assert!(dot(&v.norm, &vec3(v.pos.x, v.pos.y, 0.0)) > 0.0);
    }
}

#[test]
fn cylinder_winding_is_consistent() {
    // The cylinder's sign flag is a pinned empirical constant: with it, every
    // emitted triangle's cross product points along the outward surface
    // normal stored at its vertices.
    let store = barrel_store(true);
    let t = Triangulator::run(&store).unwrap();
    assert!(t.triangles.len() > 0);
    for tri in &t.triangles {
        let a = &t.vertices[tri.verts[0] as usize];
        let b = &t.vertices[tri.verts[1] as usize];
        let c = &t.vertices[tri.verts[2] as usize];
        let outward = (a.norm + b.norm + c.norm) / 3.0;
        let s = dot(&nalgebra_glm::cross(&(b.pos - a.pos), &(c.pos - a.pos)), &outward);
        assert!(s > 0.0);
    }
}

#[test]
fn triangulate_returns_buffers() {
    let store = barrel_store(true);
    let (vertices, triangles) = triangulate(&store).unwrap();
    let t = Triangulator::run(&store).unwrap();
    assert_eq!(vertices.len(), t.vertices.len());
    assert_eq!(triangles.len(), t.triangles.len());
}
