use nalgebra_glm::{vec1, vec3, DVec3};

use step_mesh::entities::{Entity, StepError};
use step_mesh::triangulate::Triangulator;

fn line_store() -> Vec<Entity> {
    vec![
        Entity::CartesianPoint { coords: vec3(0.0, 0.0, 0.0) },
        Entity::CartesianPoint { coords: vec3(1.0, 0.0, 0.0) },
        Entity::VertexPoint { geometry: 0 },
        Entity::VertexPoint { geometry: 1 },
        Entity::Direction { dir: vec3(1.0, 0.0, 0.0) },
        Entity::Vector { orientation: 4, magnitude: vec1(1.0) },
        Entity::Line { point: 0, direction: 5 },
    ]
}

#[test]
fn line_round_trip() {
    let store = line_store();
    let t = Triangulator::new(&store);
    let pts = t.edge_curve(2, 3, 6, true, false).unwrap();
    assert_eq!(pts.len(), 2);
    assert_eq!(pts[0], vec3(0.0, 0.0, 0.0));
    assert_eq!(pts[1], vec3(1.0, 0.0, 0.0));
}

#[test]
fn line_swapped_endpoints() {
    let store = line_store();
    let t = Triangulator::new(&store);
    let pts = t.edge_curve(3, 2, 6, true, false).unwrap();
    assert_eq!(pts[0], vec3(1.0, 0.0, 0.0));
    assert_eq!(pts[1], vec3(0.0, 0.0, 0.0));
}

#[test]
fn line_inconsistent_direction_is_fatal() {
    let mut store = line_store();
    store[4] = Entity::Direction { dir: vec3(0.0, 1.0, 0.0) };
    let t = Triangulator::new(&store);
    let r = t.edge_curve(2, 3, 6, true, false);
    assert_eq!(r.unwrap_err(), StepError::InconsistentLine(6));
}

fn circle_store(radius: f64) -> Vec<Entity> {
    vec![
        Entity::CartesianPoint { coords: vec3(radius, 0.0, 0.0) },
        Entity::VertexPoint { geometry: 0 },
        Entity::CartesianPoint { coords: vec3(0.0, 0.0, 0.0) },
        Entity::Direction { dir: vec3(0.0, 0.0, 1.0) },
        Entity::Direction { dir: vec3(1.0, 0.0, 0.0) },
        Entity::Axis2Placement3d { location: 2, axis: 3, ref_direction: 4 },
        Entity::Circle { position: 5, radius: vec1(radius) },
    ]
}

#[test]
fn closed_circle_sampling() {
    let store = circle_store(1.0);
    let t = Triangulator::new(&store);
    // A full circle: start and end resolve to the same vertex.
    let pts = t.edge_curve(1, 1, 6, true, false).unwrap();
    // One full turn at 64 samples per turn.
    assert_eq!(pts.len(), 64);
    assert!(pts.len() >= 4);
    assert_eq!(pts[0], vec3(1.0, 0.0, 0.0));
    assert_eq!(pts[pts.len() - 1], vec3(1.0, 0.0, 0.0));
    // Uniform angular steps give uniform chord lengths on a circle.
    let chord = |a: &DVec3, b: &DVec3| nalgebra_glm::distance(a, b);
    let first = chord(&pts[0], &pts[1]);
    assert!(first > 0.0);
    for w in pts.windows(2) {
        let c = chord(&w[0], &w[1]);
        assert!((c - first).abs() < 1e-9);
    }
    // Every sample lies on the unit circle.
    for p in &pts {
        assert!((nalgebra_glm::length(p) - 1.0).abs() < 1e-9);
        assert!(p.z.abs() < 1e-9);
    }
}

#[test]
fn half_circle_sampling() {
    let mut store = circle_store(1.0);
    store.push(Entity::CartesianPoint { coords: vec3(-1.0, 0.0, 0.0) });
    store.push(Entity::VertexPoint { geometry: 7 });
    let t = Triangulator::new(&store);
    let pts = t.edge_curve(1, 8, 6, true, false).unwrap();
    // Half a turn at 64 samples per turn rounds to 32.
    assert_eq!(pts.len(), 32);
    assert_eq!(pts[0], vec3(1.0, 0.0, 0.0));
    assert_eq!(pts[pts.len() - 1], vec3(-1.0, 0.0, 0.0));
    // Travel stays on the positive-y arc for a counterclockwise half turn.
    for p in &pts[1..pts.len() - 1] {
        assert!(p.y > 0.0);
    }
}

#[test]
fn free_form_curve_gives_empty_samples() {
    let mut store = line_store();
    store.push(Entity::BSplineCurveWithKnots);
    let t = Triangulator::new(&store);
    let pts = t.edge_curve(2, 3, 7, true, false).unwrap();
    assert_eq!(pts.len(), 0);
}

#[test]
fn unknown_curve_is_fatal() {
    let mut store = line_store();
    store.push(Entity::Other);
    let t = Triangulator::new(&store);
    let r = t.edge_curve(2, 3, 7, true, false);
    assert_eq!(r.unwrap_err(), StepError::UnknownCurve(7));
}

#[test]
fn vertex_point_errors() {
    let store = line_store();
    let t = Triangulator::new(&store);
    assert_eq!(t.vertex_point(0).unwrap(), vec3(0.0, 0.0, 0.0));
    assert_eq!(t.vertex_point(99).unwrap_err(), StepError::IdOutOfRange(99));
    assert_eq!(t.vertex_point(4).unwrap_err(), StepError::NotCartesianPoint(4));
}

#[test]
fn vector_scales_direction() {
    let store = line_store();
    let t = Triangulator::new(&store);
    let d = t.vector(4, &vec1(2.5)).unwrap();
    assert_eq!(d, vec3(2.5, 0.0, 0.0));
}

#[test]
fn placement_errors_are_precise() {
    let store = circle_store(1.0);
    let t = Triangulator::new(&store);
    assert!(t.axis2_placement_3d_(5).is_ok());
    assert_eq!(t.axis2_placement_3d_(0).unwrap_err(), StepError::NotAxis2Placement(0));
    assert_eq!(t.axis2_placement_3d(3, 3, 4).unwrap_err(), StepError::NotCartesianPoint(3));
    assert_eq!(t.axis2_placement_3d(2, 2, 4).unwrap_err(), StepError::NotDirection(2));
}
