use nalgebra_glm::{vec1, vec3, DVec3};

use step_mesh::entities::{Entity, StepError};
use step_mesh::triangulate::Triangulator;

/// A unit square in the XY plane, bounded by four lines, on a plane whose
/// normal is +z.  Entity 34 is the face, entity 11 the surface.
fn square_store(same_sense: bool) -> Vec<Entity> {
    vec![
        Entity::CartesianPoint { coords: vec3(0.0, 0.0, 0.0) },
        Entity::CartesianPoint { coords: vec3(1.0, 0.0, 0.0) },
        Entity::CartesianPoint { coords: vec3(1.0, 1.0, 0.0) },
        Entity::CartesianPoint { coords: vec3(0.0, 1.0, 0.0) },
        Entity::VertexPoint { geometry: 0 },
        Entity::VertexPoint { geometry: 1 },
        Entity::VertexPoint { geometry: 2 },
        Entity::VertexPoint { geometry: 3 },
        Entity::Direction { dir: vec3(0.0, 0.0, 1.0) },
        Entity::Direction { dir: vec3(1.0, 0.0, 0.0) },
        Entity::Axis2Placement3d { location: 0, axis: 8, ref_direction: 9 },
        Entity::Plane { position: 10 },
        Entity::Direction { dir: vec3(1.0, 0.0, 0.0) },
        Entity::Vector { orientation: 12, magnitude: vec1(1.0) },
        Entity::Line { point: 0, direction: 13 },
        Entity::EdgeCurve { start: 4, end: 5, geometry: 14, same_sense: true },
        Entity::OrientedEdge { element: 15, orientation: true },
        Entity::Direction { dir: vec3(0.0, 1.0, 0.0) },
        Entity::Vector { orientation: 17, magnitude: vec1(1.0) },
        Entity::Line { point: 1, direction: 18 },
        Entity::EdgeCurve { start: 5, end: 6, geometry: 19, same_sense: true },
        Entity::OrientedEdge { element: 20, orientation: true },
        Entity::Direction { dir: vec3(-1.0, 0.0, 0.0) },
        Entity::Vector { orientation: 22, magnitude: vec1(1.0) },
        Entity::Line { point: 2, direction: 23 },
        Entity::EdgeCurve { start: 6, end: 7, geometry: 24, same_sense: true },
        Entity::OrientedEdge { element: 25, orientation: true },
        Entity::Direction { dir: vec3(0.0, -1.0, 0.0) },
        Entity::Vector { orientation: 27, magnitude: vec1(1.0) },
        Entity::Line { point: 3, direction: 28 },
        Entity::EdgeCurve { start: 7, end: 4, geometry: 29, same_sense: true },
        Entity::OrientedEdge { element: 30, orientation: true },
        Entity::EdgeLoop { edges: vec![16, 21, 26, 31] },
        Entity::FaceBound { bound: 32, orientation: true },
        Entity::AdvancedFace { bounds: vec![33], surface: 11, same_sense },
    ]
}

fn cross_dot_z(a: &DVec3, b: &DVec3, c: &DVec3) -> f64 {
    nalgebra_glm::cross(&(b - a), &(c - a)).z
}

#[test]
fn square_face_triangulates() {
    let store = square_store(true);
    let t = Triangulator::run(&store).unwrap();
    assert_eq!(t.vertices.len(), 4);
    assert_eq!(t.triangles.len(), 2);
    assert_eq!(t.skipped.len(), 0);
    for tri in &t.triangles {
        for &ix in tri.verts.iter() {
            assert!((ix as usize) < t.vertices.len());
        }
    }
}

#[test]
fn winding_same_sense_points_along_normal() {
    let store = square_store(true);
    let t = Triangulator::run(&store).unwrap();
    for tri in &t.triangles {
        let a = &t.vertices[tri.verts[0] as usize].pos;
        let b = &t.vertices[tri.verts[1] as usize].pos;
        let c = &t.vertices[tri.verts[2] as usize].pos;
        assert!(cross_dot_z(a, b, c) > 0.0);
    }
}

#[test]
fn winding_opposite_sense_reverses_indices() {
    let fwd = square_store(true);
    let rev = square_store(false);
    let tf = Triangulator::run(&fwd).unwrap();
    let tr = Triangulator::run(&rev).unwrap();
    assert_eq!(tf.triangles.len(), tr.triangles.len());
    for (a, b) in tf.triangles.iter().zip(tr.triangles.iter()) {
        assert_eq!(a.verts[0], b.verts[0]);
        assert_eq!(a.verts[1], b.verts[2]);
        assert_eq!(a.verts[2], b.verts[1]);
    }
    for tri in &tr.triangles {
        let a = &tr.vertices[tri.verts[0] as usize].pos;
        let b = &tr.vertices[tri.verts[1] as usize].pos;
        let c = &tr.vertices[tri.verts[2] as usize].pos;
        assert!(cross_dot_z(a, b, c) < 0.0);
    }
}

#[test]
fn apex_vertex_contributes_point_without_edges() {
    let mut store = square_store(true);
    store.push(Entity::CartesianPoint { coords: vec3(0.5, 0.5, 0.0) });  // 35
    store.push(Entity::VertexPoint { geometry: 35 });  // 36
    store.push(Entity::VertexLoop { vertex: 36 });  // 37
    store.push(Entity::FaceBound { bound: 37, orientation: true });  // 38
    store[34] = Entity::AdvancedFace { bounds: vec![33, 38], surface: 11, same_sense: true };
    let t = Triangulator::run(&store).unwrap();
    // The apex point joins the vertex buffer with the plane's normal.
    assert_eq!(t.vertices.len(), 5);
    assert_eq!(t.vertices[4].pos, vec3(0.5, 0.5, 0.0));
    assert_eq!(t.vertices[4].norm, vec3(0.0, 0.0, 1.0));
    // It is a Steiner point: the triangulation fans around it.
    assert_eq!(t.triangles.len(), 4);
    for tri in &t.triangles {
        for &ix in tri.verts.iter() {
            assert!((ix as usize) < t.vertices.len());
        }
    }
}

#[test]
fn free_form_boundary_skips_only_its_face() {
    // A second face whose loop holds a free-form curve: its polyline comes
    // out malformed, the triangulation engine rejects it, and only that face
    // is skipped.  The square face's output is unaffected.
    let mut store = square_store(true);
    let x = 0.5f64.sqrt();
    store.push(Entity::BSplineCurveWithKnots);  // 35
    store.push(Entity::EdgeCurve { start: 5, end: 6, geometry: 35, same_sense: true });  // 36
    store.push(Entity::OrientedEdge { element: 36, orientation: true });  // 37
    store.push(Entity::Direction { dir: vec3(-x, -x, 0.0) });  // 38
    store.push(Entity::Vector { orientation: 38, magnitude: vec1(1.0) });  // 39
    store.push(Entity::Line { point: 2, direction: 39 });  // 40
    store.push(Entity::EdgeCurve { start: 6, end: 4, geometry: 40, same_sense: true });  // 41
    store.push(Entity::OrientedEdge { element: 41, orientation: true });  // 42
    store.push(Entity::EdgeLoop { edges: vec![16, 37, 42] });  // 43
    store.push(Entity::FaceBound { bound: 43, orientation: true });  // 44
    store.push(Entity::AdvancedFace { bounds: vec![44], surface: 11, same_sense: true });  // 45
    let t = Triangulator::run(&store).unwrap();
    // The run completes; the malformed face is skipped with a diagnostic.
    assert_eq!(t.skipped, vec![11]);
    // The square face's two triangles are untouched.
    assert_eq!(t.triangles.len(), 2);
    for tri in &t.triangles {
        for &ix in tri.verts.iter() {
            assert!((ix as usize) < 4);
        }
    }
}

#[test]
fn unknown_surface_family_skips_face() {
    let mut store = square_store(true);
    store[11] = Entity::Other;
    let t = Triangulator::run(&store).unwrap();
    assert_eq!(t.triangles.len(), 0);
    assert_eq!(t.vertices.len(), 0);
    assert_eq!(t.skipped, vec![11]);
}

#[test]
fn bad_face_bound_is_fatal() {
    let mut store = square_store(true);
    store[34] = Entity::AdvancedFace { bounds: vec![0], surface: 11, same_sense: true };
    let r = Triangulator::run(&store);
    assert_eq!(r.err().unwrap(), StepError::NotFaceBound(0));
}

#[test]
fn closed_bspline_patch_is_fatal() {
    let mut store = square_store(true);
    store[11] = Entity::BSplineSurfaceWithKnots {
        u_degree: 3,
        v_degree: 3,
        control_points: vec![vec![0, 1], vec![2, 3]],
        u_closed: true,
        v_closed: false,
        self_intersect: false,
        u_multiplicities: vec![4, 4],
        v_multiplicities: vec![4, 4],
        u_knots: vec![vec1(0.0), vec1(1.0)],
        v_knots: vec![vec1(0.0), vec1(1.0)],
    };
    let r = Triangulator::run(&store);
    assert_eq!(r.err().unwrap(), StepError::UnsupportedBSplinePatch(11));
}

#[test]
fn open_bspline_patch_skips_face() {
    let mut store = square_store(true);
    store[11] = Entity::BSplineSurfaceWithKnots {
        u_degree: 3,
        v_degree: 3,
        control_points: vec![vec![0, 1], vec![2, 3]],
        u_closed: false,
        v_closed: false,
        self_intersect: false,
        u_multiplicities: vec![4, 4],
        v_multiplicities: vec![4, 4],
        u_knots: vec![vec1(0.0), vec1(1.0)],
        v_knots: vec![vec1(0.0), vec1(1.0)],
    };
    let t = Triangulator::run(&store).unwrap();
    assert_eq!(t.triangles.len(), 0);
    assert_eq!(t.skipped, vec![11]);
}

#[test]
fn cone_is_approximated_as_plane() {
    let mut store = square_store(true);
    store[11] = Entity::ConicalSurface {
        position: 10,
        radius: vec1(1.0),
        semi_angle: vec1(0.5),
    };
    let t = Triangulator::run(&store).unwrap();
    assert_eq!(t.triangles.len(), 2);
    assert_eq!(t.vertices[0].norm, vec3(0.0, 0.0, 1.0));
}
