//! The entity store: the decoded exchange file exposed as a flat, immutable
//! array of typed records, resolved by integer identifier.
use vstd::prelude::*;

use crate::geom::{Point3, Scalar1};

verus! {

/// An identifier resolving a record in the entity store.
pub type Id = usize;

/// One typed record of the entity store.  Records this core never reads are
/// collapsed into `Other`.
pub enum Entity {
    CartesianPoint { coords: Point3 },
    Direction { dir: Point3 },
    Vector { orientation: Id, magnitude: Scalar1 },
    Axis2Placement3d { location: Id, axis: Id, ref_direction: Id },
    VertexPoint { geometry: Id },
    EdgeCurve { start: Id, end: Id, geometry: Id, same_sense: bool },
    OrientedEdge { element: Id, orientation: bool },
    EdgeLoop { edges: Vec<Id> },
    FaceBound { bound: Id, orientation: bool },
    VertexLoop { vertex: Id },
    Line { point: Id, direction: Id },
    Circle { position: Id, radius: Scalar1 },
    Ellipse { position: Id, radius1: Scalar1, radius2: Scalar1 },
    Plane { position: Id },
    CylindricalSurface { position: Id, radius: Scalar1 },
    ConicalSurface { position: Id, radius: Scalar1, semi_angle: Scalar1 },
    BSplineSurfaceWithKnots {
        u_degree: usize,
        v_degree: usize,
        control_points: Vec<Vec<Id>>,
        u_closed: bool,
        v_closed: bool,
        self_intersect: bool,
        u_multiplicities: Vec<usize>,
        v_multiplicities: Vec<usize>,
        u_knots: Vec<Scalar1>,
        v_knots: Vec<Scalar1>,
    },
    BSplineCurveWithKnots,
    AdvancedFace { bounds: Vec<Id>, surface: Id, same_sense: bool },
    Other,
}

/// A structural violation: the store breaks its own schema, or a consistency
/// check on the decoded geometry fails.  These end the whole run.
#[derive(Clone, Copy, PartialEq, Eq, Structural, Debug)]
pub enum StepError {
    /// An identifier does not resolve to any record.
    IdOutOfRange(Id),
    /// The record is not the cartesian point the schema asks for.
    NotCartesianPoint(Id),
    /// The record is not the direction the schema asks for.
    NotDirection(Id),
    /// The record is not the vector the schema asks for.
    NotVector(Id),
    /// The record is not the axis placement the schema asks for.
    NotAxis2Placement(Id),
    /// The record is not the vertex point the schema asks for.
    NotVertexPoint(Id),
    /// The record is not the face bound the schema asks for.
    NotFaceBound(Id),
    /// The record is neither an edge loop nor a vertex loop.
    NotLoop(Id),
    /// The record is not the oriented edge the schema asks for.
    NotOrientedEdge(Id),
    /// The record is not the edge curve the schema asks for.
    NotEdgeCurve(Id),
    /// The record is no curve kind this core recognizes.
    UnknownCurve(Id),
    /// The patch is closed or self-intersecting, which the schema forbids
    /// here.
    UnsupportedBSplinePatch(Id),
    /// An axis placement whose transform cannot be inverted.
    DegeneratePlacement(Id),
    /// Re-projecting a line's endpoints failed the consistency check.
    InconsistentLine(Id),
    /// More triangles than the exporter's count field can carry.
    TooManyTriangles,
}

/// Whether `i` resolves to a cartesian point record.
pub open spec fn is_point(store: Seq<Entity>, i: Id) -> bool {
    i < store.len() && store[i as int] matches Entity::CartesianPoint { .. }
}

/// The coordinates of the cartesian point at `i`.
pub open spec fn point_of(store: Seq<Entity>, i: Id) -> Point3 {
    store[i as int]->CartesianPoint_coords
}

/// The exact error a failed cartesian-point resolution reports.
pub open spec fn pt_err(store: Seq<Entity>, i: Id) -> StepError {
    if i >= store.len() {
        StepError::IdOutOfRange(i)
    } else {
        StepError::NotCartesianPoint(i)
    }
}

/// Whether `i` resolves to a direction record.
pub open spec fn is_direction(store: Seq<Entity>, i: Id) -> bool {
    i < store.len() && store[i as int] matches Entity::Direction { .. }
}

/// The direction vector at `i`.
pub open spec fn dir_of(store: Seq<Entity>, i: Id) -> Point3 {
    store[i as int]->Direction_dir
}

/// The exact error a failed direction resolution reports.
pub open spec fn dir_err(store: Seq<Entity>, i: Id) -> StepError {
    if i >= store.len() {
        StepError::IdOutOfRange(i)
    } else {
        StepError::NotDirection(i)
    }
}

/// Whether `i` resolves to an axis placement record.
pub open spec fn is_axis2(store: Seq<Entity>, i: Id) -> bool {
    i < store.len() && store[i as int] matches Entity::Axis2Placement3d { .. }
}

pub open spec fn axis2_location(store: Seq<Entity>, i: Id) -> Id {
    store[i as int]->Axis2Placement3d_location
}

pub open spec fn axis2_axis(store: Seq<Entity>, i: Id) -> Id {
    store[i as int]->Axis2Placement3d_axis
}

pub open spec fn axis2_ref_direction(store: Seq<Entity>, i: Id) -> Id {
    store[i as int]->Axis2Placement3d_ref_direction
}

/// The exact error a failed axis-placement resolution reports.
pub open spec fn axis2_err(store: Seq<Entity>, i: Id) -> StepError {
    if i >= store.len() {
        StepError::IdOutOfRange(i)
    } else {
        StepError::NotAxis2Placement(i)
    }
}

/// Whether `i` is an axis placement whose location, axis and reference
/// direction all resolve to the records the schema asks for.
pub open spec fn placement_ok(store: Seq<Entity>, i: Id) -> bool {
    &&& is_axis2(store, i)
    &&& is_point(store, axis2_location(store, i))
    &&& is_direction(store, axis2_axis(store, i))
    &&& is_direction(store, axis2_ref_direction(store, i))
}

/// The exact error a failed placement resolution reports: the first of its
/// parts that does not resolve.
pub open spec fn placement_err(store: Seq<Entity>, i: Id) -> StepError {
    if !is_axis2(store, i) {
        axis2_err(store, i)
    } else if !is_point(store, axis2_location(store, i)) {
        pt_err(store, axis2_location(store, i))
    } else if !is_direction(store, axis2_axis(store, i)) {
        dir_err(store, axis2_axis(store, i))
    } else {
        dir_err(store, axis2_ref_direction(store, i))
    }
}

/// Whether `i` is a vertex-point record.
pub open spec fn is_vp_record(store: Seq<Entity>, i: Id) -> bool {
    i < store.len() && store[i as int] matches Entity::VertexPoint { .. }
}

pub open spec fn vp_geom(store: Seq<Entity>, i: Id) -> Id {
    store[i as int]->VertexPoint_geometry
}

/// Whether `i` is a vertex point whose geometry resolves to a cartesian
/// point.
pub open spec fn is_vertex(store: Seq<Entity>, i: Id) -> bool {
    is_vp_record(store, i) && is_point(store, vp_geom(store, i))
}

/// The position of the vertex at `i`.
pub open spec fn vertex_of(store: Seq<Entity>, i: Id) -> Point3 {
    point_of(store, vp_geom(store, i))
}

/// The exact error a failed vertex resolution reports.
pub open spec fn vp_err(store: Seq<Entity>, i: Id) -> StepError {
    if !is_vp_record(store, i) {
        if i >= store.len() {
            StepError::IdOutOfRange(i)
        } else {
            StepError::NotVertexPoint(i)
        }
    } else {
        pt_err(store, vp_geom(store, i))
    }
}

/// Whether `i` is a vector record.
pub open spec fn is_vec_record(store: Seq<Entity>, i: Id) -> bool {
    i < store.len() && store[i as int] matches Entity::Vector { .. }
}

pub open spec fn vec_orientation(store: Seq<Entity>, i: Id) -> Id {
    store[i as int]->Vector_orientation
}

pub open spec fn vec_magnitude(store: Seq<Entity>, i: Id) -> Scalar1 {
    store[i as int]->Vector_magnitude
}

/// The exact error a failed vector resolution reports.
pub open spec fn vec_err(store: Seq<Entity>, i: Id) -> StepError {
    if i >= store.len() {
        StepError::IdOutOfRange(i)
    } else {
        StepError::NotVector(i)
    }
}

/// Whether `i` is an edge-curve record.
pub open spec fn is_edge_curve(store: Seq<Entity>, i: Id) -> bool {
    i < store.len() && store[i as int] matches Entity::EdgeCurve { .. }
}

/// The exact error a failed edge-curve resolution reports.
pub open spec fn ec_err(store: Seq<Entity>, i: Id) -> StepError {
    if i >= store.len() {
        StepError::IdOutOfRange(i)
    } else {
        StepError::NotEdgeCurve(i)
    }
}

pub open spec fn ec_start(store: Seq<Entity>, i: Id) -> Id {
    store[i as int]->EdgeCurve_start
}

pub open spec fn ec_end(store: Seq<Entity>, i: Id) -> Id {
    store[i as int]->EdgeCurve_end
}

pub open spec fn ec_geometry(store: Seq<Entity>, i: Id) -> Id {
    store[i as int]->EdgeCurve_geometry
}

pub open spec fn ec_same_sense(store: Seq<Entity>, i: Id) -> bool {
    store[i as int]->EdgeCurve_same_sense
}

/// Whether `i` is an oriented-edge record.
pub open spec fn is_oriented_edge(store: Seq<Entity>, i: Id) -> bool {
    i < store.len() && store[i as int] matches Entity::OrientedEdge { .. }
}

pub open spec fn oe_element(store: Seq<Entity>, i: Id) -> Id {
    store[i as int]->OrientedEdge_element
}

pub open spec fn oe_orientation(store: Seq<Entity>, i: Id) -> bool {
    store[i as int]->OrientedEdge_orientation
}

/// The exact error a failed oriented-edge resolution reports.
pub open spec fn oe_err(store: Seq<Entity>, i: Id) -> StepError {
    if i >= store.len() {
        StepError::IdOutOfRange(i)
    } else {
        StepError::NotOrientedEdge(i)
    }
}

/// Whether `i` is a face-bound record.
pub open spec fn is_face_bound(store: Seq<Entity>, i: Id) -> bool {
    i < store.len() && store[i as int] matches Entity::FaceBound { .. }
}

pub open spec fn fb_bound(store: Seq<Entity>, i: Id) -> Id {
    store[i as int]->FaceBound_bound
}

pub open spec fn fb_orientation(store: Seq<Entity>, i: Id) -> bool {
    store[i as int]->FaceBound_orientation
}

} // verus!
