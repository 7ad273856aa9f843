//! The boundary walker and face triangulator: walks each face's loops through
//! the entity store into ordered 3D polylines, projects them into the
//! surface's parameter space, triangulates under the loop constraints, and
//! lifts the triangles back with consistent winding.
use vstd::prelude::*;

use crate::entities::{
    axis2_axis, axis2_location, axis2_ref_direction, dir_err, dir_of, ec_end, ec_err, ec_geometry,
    ec_same_sense, ec_start, is_direction, is_edge_curve, is_face_bound, is_oriented_edge,
    is_point, is_vec_record, is_vertex, oe_element, oe_orientation, placement_err, placement_ok,
    point_of, pt_err, vec_err, vec_magnitude, vec_orientation, vertex_of, vp_err, Entity, Id,
    StepError,
};
use crate::geom::{
    add_full_turn, affine_of, angle_of, arc_steps, cdt_accepts, cdt_returns, cdt_triangles,
    circle_pt, cross_dir, cross_of, eplane_angle, eplane_point, f32_bits, inverse_of, invertible,
    le_of, lerp_angle, lerp_of, line_consistent, line_fits, make_affine_transform, mat_inverse,
    rigid_of, run_cdt, scale_dir, scalar_le, scaled_dir, steps_of, sub_full_turn, turn_back,
    turn_fwd, zero_vec3, Mat4, Point2, Point3, Scalar1,
};
use crate::mesh::{tri_in_range, Triangle, Vertex};
use crate::surface::{surface_normal, surface_project, Surface};

verus! {

/// The sample density of arc sampling: how many points a full turn gets.
pub const SAMPLES_PER_TURN: u32 = 64;

/// `post` keeps every element of `pre` at its index: the buffers only grow.
pub open spec fn seq_extends<T>(pre: Seq<T>, post: Seq<T>) -> bool {
    pre.len() <= post.len() && forall|j: int| 0 <= j < pre.len() ==> #[trigger] post[j] == pre[j]
}

/// Edge `j` of the constraint cycle that a loop of `n` fresh points starting
/// at index `start` contributes.
pub open spec fn cycle_edge(start: int, n: int, j: int) -> (int, int) {
    (start + j, if j + 1 < n {
        start + j + 1
    } else {
        start
    })
}

pub open spec fn edge_as_int(e: (usize, usize)) -> (int, int) {
    (e.0 as int, e.1 as int)
}

/// The triangle emitted for a local index triple: lifted by the face's vertex
/// offset, with its second and third vertices exchanged when `keep` is
/// cleared.
pub open spec fn oriented_tri(t: (usize, usize, usize), offset: int, keep: bool) -> Triangle {
    if keep {
        Triangle { verts: [((t.0 + offset) as u32), ((t.1 + offset) as u32), ((t.2 + offset) as u32)] }
    } else {
        Triangle { verts: [((t.0 + offset) as u32), ((t.2 + offset) as u32), ((t.1 + offset) as u32)] }
    }
}

/// The ellipse-plane basis: the placement's axis, the reference direction and
/// its normal scaled by the two radii, at the placement's location.
pub open spec fn arc_basis(
    axis: Point3,
    ref_direction: Point3,
    location: Point3,
    r1: Scalar1,
    r2: Scalar1,
) -> Mat4 {
    affine_of(
        axis,
        scaled_dir(ref_direction, r1),
        scaled_dir(cross_of(axis, ref_direction), r2),
        location,
    )
}

/// The basis of the arc whose placement record sits at `position`.
pub open spec fn arc_basis_at(store: Seq<Entity>, position: Id, r1: Scalar1, r2: Scalar1) -> Mat4 {
    arc_basis(
        dir_of(store, axis2_axis(store, position)),
        dir_of(store, axis2_ref_direction(store, position)),
        point_of(store, axis2_location(store, position)),
        r1,
        r2,
    )
}

/// The end angle of the travel: a closed arc is one full turn from the start
/// in the direction of travel; otherwise the end angle is pushed one turn
/// when it lies on the wrong side of the start.
pub open spec fn arc_v_angle(m_inv: Mat4, u: Point3, v: Point3, closed: bool, dir: bool) -> Scalar1 {
    let ua = angle_of(m_inv, u);
    let va = angle_of(m_inv, v);
    if closed {
        if dir {
            turn_fwd(ua)
        } else {
            turn_back(ua)
        }
    } else if dir && le_of(va, ua) {
        turn_fwd(va)
    } else if !dir && le_of(ua, va) {
        turn_back(va)
    } else {
        va
    }
}

/// The sample count: what the angular span asks for at the configured
/// density, and at least four.
pub open spec fn arc_count(ua: Scalar1, va: Scalar1) -> u32 {
    if steps_of(ua, va, SAMPLES_PER_TURN) < 4 {
        4
    } else {
        steps_of(ua, va, SAMPLES_PER_TURN)
    }
}

/// The exact samples of one arc: the two supplied endpoints, and between them
/// the interpolated angles carried through the basis.
pub open spec fn arc_samples_ok(
    m: Mat4,
    u: Point3,
    v: Point3,
    closed: bool,
    dir: bool,
    pts: Seq<Point3>,
) -> bool {
    let ua = angle_of(inverse_of(m), u);
    let va = arc_v_angle(inverse_of(m), u, v, closed, dir);
    let n = arc_count(ua, va) as int;
    &&& pts.len() == n
    &&& pts[0] == u
    &&& pts[n - 1] == v
    &&& (forall|i: int|
        1 <= i < n - 1 ==> pts[i] == circle_pt(m, lerp_of(ua, va, i as u32, (n - 1) as u32)))
}

/// What sampling a circular or elliptical arc returns: the exact samples when
/// the basis inverts, the precise error otherwise.
pub open spec fn arc_case(
    store: Seq<Entity>,
    u: Point3,
    v: Point3,
    position: Id,
    r1: Scalar1,
    r2: Scalar1,
    closed: bool,
    dir: bool,
    r: Result<Vec<Point3>, StepError>,
) -> bool {
    if !placement_ok(store, position) {
        r == Err::<Vec<Point3>, StepError>(placement_err(store, position))
    } else {
        let m = arc_basis_at(store, position, r1, r2);
        &&& (r is Ok <==> invertible(m))
        &&& (r matches Ok(pts) ==> arc_samples_ok(m, u, v, closed, dir, pts@))
        &&& (r matches Err(e) ==> e == StepError::DegeneratePlacement(position))
    }
}

/// Whether the line's own records resolve.
pub open spec fn line_struct_ok(store: Seq<Entity>, pnt: Id, dir: Id) -> bool {
    &&& is_point(store, pnt)
    &&& is_vec_record(store, dir)
    &&& is_direction(store, vec_orientation(store, dir))
}

/// The line's direction vector: its vector record's direction scaled by the
/// magnitude.
pub open spec fn line_dir(store: Seq<Entity>, dir: Id) -> Point3 {
    scaled_dir(dir_of(store, vec_orientation(store, dir)), vec_magnitude(store, dir))
}

/// Whether sampling the line succeeds: its records resolve and the endpoints
/// re-project consistently.
pub open spec fn line_can_ok(store: Seq<Entity>, u: Point3, v: Point3, pnt: Id, dir: Id) -> bool {
    line_struct_ok(store, pnt, dir) && line_fits(u, v, point_of(store, pnt), line_dir(store, dir))
}

/// The exact error a failed line sampling reports.
pub open spec fn line_err(store: Seq<Entity>, pnt: Id, dir: Id, geometry: Id) -> StepError {
    if !is_point(store, pnt) {
        pt_err(store, pnt)
    } else if !is_vec_record(store, dir) {
        vec_err(store, dir)
    } else if !is_direction(store, vec_orientation(store, dir)) {
        dir_err(store, vec_orientation(store, dir))
    } else {
        StepError::InconsistentLine(geometry)
    }
}

/// What sampling a line returns: exactly `[u, v]` when its records resolve
/// and the consistency check passes, the precise error otherwise.
pub open spec fn line_post(
    store: Seq<Entity>,
    u: Point3,
    v: Point3,
    pnt: Id,
    dir: Id,
    geometry: Id,
    r: Result<Vec<Point3>, StepError>,
) -> bool {
    &&& (r is Ok <==> line_can_ok(store, u, v, pnt, dir))
    &&& (r matches Ok(pts) ==> pts@ == seq![u, v])
    &&& (r matches Err(err) ==> err == line_err(store, pnt, dir, geometry))
}

/// Whether sampling the edge curve succeeds, by its geometry record.
pub open spec fn edge_can_ok(store: Seq<Entity>, s: Id, e: Id, g: Id) -> bool {
    &&& is_vertex(store, s)
    &&& is_vertex(store, e)
    &&& g < store.len()
    &&& match store[g as int] {
        Entity::Line { point, direction } => line_can_ok(
            store,
            vertex_of(store, s),
            vertex_of(store, e),
            point,
            direction,
        ),
        Entity::Circle { position, radius } => placement_ok(store, position) && invertible(
            arc_basis_at(store, position, radius, radius),
        ),
        Entity::Ellipse { position, radius1, radius2 } => placement_ok(store, position)
            && invertible(arc_basis_at(store, position, radius1, radius2)),
        Entity::BSplineCurveWithKnots => true,
        _ => false,
    }
}

/// The exact samples a successful edge-curve sampling returns.
pub open spec fn edge_ok_val(
    store: Seq<Entity>,
    s: Id,
    e: Id,
    g: Id,
    same_sense: bool,
    flip: bool,
    pts: Seq<Point3>,
) -> bool {
    &&& edge_can_ok(store, s, e, g)
    &&& match store[g as int] {
        Entity::Line { .. } => pts == seq![vertex_of(store, s), vertex_of(store, e)],
        Entity::Circle { position, radius } => arc_samples_ok(
            arc_basis_at(store, position, radius, radius),
            vertex_of(store, s),
            vertex_of(store, e),
            s == e,
            same_sense != flip,
            pts,
        ),
        Entity::Ellipse { position, radius1, radius2 } => arc_samples_ok(
            arc_basis_at(store, position, radius1, radius2),
            vertex_of(store, s),
            vertex_of(store, e),
            s == e,
            same_sense != flip,
            pts,
        ),
        Entity::BSplineCurveWithKnots => pts.len() == 0,
        _ => false,
    }
}

/// The exact error a failed edge-curve sampling reports.
pub open spec fn edge_curve_err(store: Seq<Entity>, s: Id, e: Id, g: Id) -> StepError {
    if !is_vertex(store, s) {
        vp_err(store, s)
    } else if !is_vertex(store, e) {
        vp_err(store, e)
    } else if g >= store.len() {
        StepError::IdOutOfRange(g)
    } else {
        match store[g as int] {
            Entity::Line { point, direction } => line_err(store, point, direction, g),
            Entity::Circle { position, .. } => if !placement_ok(store, position) {
                placement_err(store, position)
            } else {
                StepError::DegeneratePlacement(position)
            },
            Entity::Ellipse { position, .. } => if !placement_ok(store, position) {
                placement_err(store, position)
            } else {
                StepError::DegeneratePlacement(position)
            },
            _ => StepError::UnknownCurve(g),
        }
    }
}

/// What sampling one edge curve returns: success exactly when the records
/// resolve and the sampler's own checks pass, the exact samples then, and the
/// precise error otherwise.
pub open spec fn edge_curve_post(
    store: Seq<Entity>,
    s: Id,
    e: Id,
    g: Id,
    same_sense: bool,
    flip: bool,
    r: Result<Vec<Point3>, StepError>,
) -> bool {
    &&& (r is Ok <==> edge_can_ok(store, s, e, g))
    &&& (r matches Ok(pts) ==> edge_ok_val(store, s, e, g, same_sense, flip, pts@))
    &&& (r matches Err(err) ==> err == edge_curve_err(store, s, e, g))
}

/// The exact samples a successful oriented-edge sampling returns: the
/// underlying edge curve with its endpoints swapped per the edge's flag.
pub open spec fn oe_ok(store: Seq<Entity>, oe: Id, pts: Seq<Point3>) -> bool {
    &&& is_oriented_edge(store, oe)
    &&& is_edge_curve(store, oe_element(store, oe))
    &&& ({
        let elt = oe_element(store, oe);
        let orient = oe_orientation(store, oe);
        edge_ok_val(
            store,
            if orient {
                ec_start(store, elt)
            } else {
                ec_end(store, elt)
            },
            if orient {
                ec_end(store, elt)
            } else {
                ec_start(store, elt)
            },
            ec_geometry(store, elt),
            ec_same_sense(store, elt),
            !orient,
            pts,
        )
    })
}

/// The sequence without its last element; the empty sequence stays empty.
pub open spec fn drop_last_of(s: Seq<Point3>) -> Seq<Point3> {
    if s.len() == 0 {
        s
    } else {
        s.drop_last()
    }
}

/// The loop's segments joined in order, dropping the accumulated polyline's
/// last point before each following segment (the shared point that begins
/// it).
pub open spec fn join_segments(segs: Seq<Seq<Point3>>) -> Seq<Point3>
    decreases segs.len(),
{
    if segs.len() == 0 {
        Seq::empty()
    } else if segs.len() == 1 {
        segs[0]
    } else {
        drop_last_of(join_segments(segs.drop_last())) + segs.last()
    }
}

/// The exact polyline a successful loop walk returns: a sequence of per-edge
/// sample runs, each satisfying its edge's postcondition, joined with the
/// duplicates dropped.
pub open spec fn edge_loop_ok_val(store: Seq<Entity>, edge_list: Seq<Id>, pts: Seq<Point3>) -> bool {
    exists|segs: Seq<Seq<Point3>>|
        {
            &&& segs.len() == edge_list.len()
            &&& (forall|k: int| 0 <= k < segs.len() ==> oe_ok(store, edge_list[k], #[trigger] segs[k]))
            &&& pts == join_segments(segs)
        }
}

/// Whether sampling one oriented edge succeeds: the records resolve and the
/// underlying edge curve's own checks pass.
pub open spec fn oe_can_ok(store: Seq<Entity>, oe: Id) -> bool {
    &&& is_oriented_edge(store, oe)
    &&& is_edge_curve(store, oe_element(store, oe))
    &&& ({
        let elt = oe_element(store, oe);
        let orient = oe_orientation(store, oe);
        edge_can_ok(
            store,
            if orient {
                ec_start(store, elt)
            } else {
                ec_end(store, elt)
            },
            if orient {
                ec_end(store, elt)
            } else {
                ec_start(store, elt)
            },
            ec_geometry(store, elt),
        )
    })
}

/// Whether walking the whole loop succeeds: every listed edge does.
pub open spec fn loop_can_ok(store: Seq<Entity>, edge_list: Seq<Id>) -> bool {
    forall|k: int| 0 <= k < edge_list.len() ==> oe_can_ok(store, #[trigger] edge_list[k])
}

/// Whether walking one bound's loop record succeeds.
pub open spec fn bound_can_ok(store: Seq<Entity>, bound: Id) -> bool {
    &&& bound < store.len()
    &&& match store[bound as int] {
        Entity::VertexLoop { vertex } => is_vertex(store, vertex),
        Entity::EdgeLoop { edges } => loop_can_ok(store, edges@),
        _ => false,
    }
}

/// Whether one face-bound record resolves and its loop walks.
pub open spec fn face_bound_can(store: Seq<Entity>, b: Id) -> bool {
    is_face_bound(store, b) && bound_can_ok(store, crate::entities::fb_bound(store, b))
}

/// Whether triangulating one face returns normally: its surface record is a
/// parameterized family or a validly-skipped one, and, when parameterized,
/// every bound resolves and walks.  An engine rejection is a per-face skip,
/// not a failure, so it does not appear here.
pub open spec fn face_can_ok(store: Seq<Entity>, bounds: Seq<Id>, surface: Id) -> bool {
    &&& (surface_resolvable(store, surface) || surface_unsupported(store, surface))
    &&& (surface_resolvable(store, surface) ==> forall|k: int|
        0 <= k < bounds.len() ==> face_bound_can(store, #[trigger] bounds[k]))
}

/// Whether record `i`, if a face, can be triangulated without a structural
/// violation.
pub open spec fn face_record_ok(store: Seq<Entity>, i: int) -> bool {
    store[i] matches Entity::AdvancedFace { bounds, surface, .. } ==> face_can_ok(
        store,
        bounds@,
        surface,
    )
}

/// Whether the whole store is free of structural violations at its faces.
pub open spec fn store_faces_ok(store: Seq<Entity>) -> bool {
    forall|i: int| 0 <= i < store.len() ==> #[trigger] face_record_ok(store, i)
}

/// The exact polyline a successful bound walk returns: a vertex loop's single
/// point, or an edge loop's join, reversed when the bound's orientation flag
/// is cleared.
pub open spec fn face_bound_ok_val(store: Seq<Entity>, b: Id, bc: Seq<Point3>) -> bool {
    &&& is_face_bound(store, b)
    &&& ({
        let lp = crate::entities::fb_bound(store, b);
        let orient = crate::entities::fb_orientation(store, b);
        &&& lp < store.len()
        &&& match store[lp as int] {
            Entity::VertexLoop { vertex } => is_vertex(store, vertex) && bc == seq![
                vertex_of(store, vertex),
            ],
            Entity::EdgeLoop { edges } => exists|raw: Seq<Point3>|
                edge_loop_ok_val(store, edges@, raw) && bc == (if orient {
                    raw
                } else {
                    raw.reverse()
                }),
            _ => false,
        }
    })
}

/// Whether every identifier of a control-point row resolves to a point.
pub open spec fn row_ok(store: Seq<Entity>, row: Seq<Id>) -> bool {
    forall|j: int| 0 <= j < row.len() ==> is_point(store, #[trigger] row[j])
}

/// Whether every identifier of a control-point grid resolves to a point.
pub open spec fn grid_ok(store: Seq<Entity>, grid: Seq<Vec<Id>>) -> bool {
    forall|i: int| 0 <= i < grid.len() ==> row_ok(store, (#[trigger] grid[i])@)
}

/// The rigid transform of the placement record at `position`.
pub open spec fn placement_rigid(store: Seq<Entity>, position: Id) -> Mat4 {
    rigid_of(
        dir_of(store, axis2_axis(store, position)),
        dir_of(store, axis2_ref_direction(store, position)),
        point_of(store, axis2_location(store, position)),
    )
}

/// The surface a resolvable surface record denotes.
pub open spec fn resolved_surface(store: Seq<Entity>, id: Id) -> Surface {
    match store[id as int] {
        Entity::Plane { position } => Surface::Plane {
            normal: dir_of(store, axis2_axis(store, position)),
            mat_i: inverse_of(placement_rigid(store, position)),
        },
        Entity::ConicalSurface { position, .. } => Surface::Plane {
            normal: dir_of(store, axis2_axis(store, position)),
            mat_i: inverse_of(placement_rigid(store, position)),
        },
        Entity::CylindricalSurface { position, radius } => Surface::Cylinder {
            location: point_of(store, axis2_location(store, position)),
            axis: dir_of(store, axis2_axis(store, position)),
            mat_i: inverse_of(placement_rigid(store, position)),
            radius,
        },
        _ => vstd::pervasive::arbitrary(),
    }
}

/// Whether the record denotes a surface family this core parameterizes, with
/// a resolvable, invertible placement.
pub open spec fn surface_resolvable(store: Seq<Entity>, id: Id) -> bool {
    &&& id < store.len()
    &&& match store[id as int] {
        Entity::Plane { position } => placement_ok(store, position) && invertible(
            placement_rigid(store, position),
        ),
        Entity::ConicalSurface { position, .. } => placement_ok(store, position) && invertible(
            placement_rigid(store, position),
        ),
        Entity::CylindricalSurface { position, .. } => placement_ok(store, position) && invertible(
            placement_rigid(store, position),
        ),
        _ => false,
    }
}

/// Whether the record is valid but of a family this core does not
/// parameterize, so its face is skipped with a diagnostic.
pub open spec fn surface_unsupported(store: Seq<Entity>, id: Id) -> bool {
    &&& id < store.len()
    &&& match store[id as int] {
        Entity::Plane { .. } => false,
        Entity::ConicalSurface { .. } => false,
        Entity::CylindricalSurface { .. } => false,
        Entity::BSplineSurfaceWithKnots { u_closed, v_closed, self_intersect, control_points, .. } =>
            !u_closed && !v_closed && !self_intersect && grid_ok(store, control_points@),
        _ => true,
    }
}

/// What resolving a plane-like surface (a plane, or a cone approximated by
/// its tangent plane) returns: success exactly when the placement's rigid
/// transform inverts, the pinned plane then, the precise error otherwise.
pub open spec fn plane_like_post(
    store: Seq<Entity>,
    position: Id,
    r: Result<Option<Surface>, StepError>,
) -> bool {
    if !placement_ok(store, position) {
        r == Err::<Option<Surface>, StepError>(placement_err(store, position))
    } else {
        &&& (r is Ok <==> invertible(placement_rigid(store, position)))
        &&& (r matches Ok(o) ==> o == Some(
            Surface::Plane {
                normal: dir_of(store, axis2_axis(store, position)),
                mat_i: inverse_of(placement_rigid(store, position)),
            },
        ))
        &&& (r matches Err(e) ==> e == StepError::DegeneratePlacement(position))
    }
}

/// What resolving a cylindrical surface returns: the pinned cylinder, or the
/// precise error.
pub open spec fn cylinder_post(
    store: Seq<Entity>,
    position: Id,
    radius: Scalar1,
    r: Result<Option<Surface>, StepError>,
) -> bool {
    if !placement_ok(store, position) {
        r == Err::<Option<Surface>, StepError>(placement_err(store, position))
    } else {
        &&& (r is Ok <==> invertible(placement_rigid(store, position)))
        &&& (r matches Ok(o) ==> o == Some(
            Surface::Cylinder {
                location: point_of(store, axis2_location(store, position)),
                axis: dir_of(store, axis2_axis(store, position)),
                mat_i: inverse_of(placement_rigid(store, position)),
                radius,
            },
        ))
        &&& (r matches Err(e) ==> e == StepError::DegeneratePlacement(position))
    }
}

/// What resolving a face's surface record returns, by the record's kind.
pub open spec fn get_surface_post(
    store: Seq<Entity>,
    id: Id,
    r: Result<Option<Surface>, StepError>,
) -> bool {
    if id >= store.len() {
        r == Err::<Option<Surface>, StepError>(StepError::IdOutOfRange(id))
    } else {
        match store[id as int] {
            Entity::Plane { position } => plane_like_post(store, position, r),
            Entity::ConicalSurface { position, .. } => plane_like_post(store, position, r),
            Entity::CylindricalSurface { position, radius } => cylinder_post(
                store,
                position,
                radius,
                r,
            ),
            Entity::BSplineSurfaceWithKnots {
                u_closed,
                v_closed,
                self_intersect,
                control_points,
                ..
            } => if u_closed || v_closed || self_intersect {
                r == Err::<Option<Surface>, StepError>(StepError::UnsupportedBSplinePatch(id))
            } else {
                &&& (r is Ok <==> grid_ok(store, control_points@))
                &&& (r matches Ok(o) ==> o is None)
            },
            _ => r == Ok::<Option<Surface>, StepError>(None),
        }
    }
}

/// The points a bound's polyline stores: all but the closing duplicate of a
/// multi-point loop, the single point of a vertex loop, nothing of an empty
/// bound.
pub open spec fn stored_of(bc: Seq<Point3>) -> Seq<Point3> {
    if bc.len() >= 2 {
        bc.take(bc.len() - 1)
    } else {
        bc
    }
}

/// The stored points of all bounds, in order.
pub open spec fn stored_pts(bcs: Seq<Seq<Point3>>) -> Seq<Point3>
    decreases bcs.len(),
{
    if bcs.len() == 0 {
        Seq::empty()
    } else {
        stored_pts(bcs.drop_last()) + stored_of(bcs.last())
    }
}

/// The closed constraint cycle over `n` points starting at `start`.
pub open spec fn cycle_seq(start: int, n: int) -> Seq<(int, int)> {
    Seq::new(n as nat, |j: int| cycle_edge(start, n, j))
}

/// The constraint edges one bound contributes: a closed cycle over its stored
/// points for a multi-point loop, none otherwise.
pub open spec fn edges_of(bc: Seq<Point3>, start: int) -> Seq<(int, int)> {
    if bc.len() >= 2 {
        cycle_seq(start, bc.len() - 1)
    } else {
        Seq::empty()
    }
}

/// The constraint edges of all bounds, each cycle over its own fresh indices.
pub open spec fn face_edges(bcs: Seq<Seq<Point3>>, base: int) -> Seq<(int, int)>
    decreases bcs.len(),
{
    if bcs.len() == 0 {
        Seq::empty()
    } else {
        face_edges(bcs.drop_last(), base) + edges_of(
            bcs.last(),
            base + stored_pts(bcs.drop_last()).len(),
        )
    }
}

/// The 2D points one face hands the engine: its bounds' stored points,
/// lowered through the resolved surface.
pub open spec fn face_pts2(store: Seq<Entity>, surface: Id, bcs: Seq<Seq<Point3>>) -> Seq<Point2> {
    let s = resolved_surface(store, surface);
    let sp = stored_pts(bcs);
    Seq::new(sp.len(), |j: int| surface_project(s, sp[j]))
}

/// The constraint edges one face hands the engine.
pub open spec fn face_eds_us(bcs: Seq<Seq<Point3>>) -> Seq<(usize, usize)> {
    let eds = face_edges(bcs, 0);
    Seq::new(eds.len(), |j: int| (eds[j].0 as usize, eds[j].1 as usize))
}

/// The standing assumption on one face: the engine returns (rather than
/// aborting) on the buffers the face's bounds resolve to.  No runtime test of
/// this exists, so callers carry it as a precondition.
pub open spec fn face_engine_returns(store: Seq<Entity>, bounds: Seq<Id>, surface: Id) -> bool {
    forall|bcs: Seq<Seq<Point3>>|
        (bcs.len() == bounds.len() && (forall|k: int|
            0 <= k < bcs.len() ==> face_bound_ok_val(store, bounds[k], #[trigger] bcs[k])))
            ==> cdt_returns(#[trigger] face_pts2(store, surface, bcs), face_eds_us(bcs))
}

/// The engine-returns assumption for record `i`, if it is a face.
pub open spec fn record_engine_returns(store: Seq<Entity>, i: int) -> bool {
    store[i] matches Entity::AdvancedFace { bounds, surface, .. } ==> face_engine_returns(
        store,
        bounds@,
        surface,
    )
}

/// The engine-returns assumption for every face of the store.
pub open spec fn store_engine_returns(store: Seq<Entity>) -> bool {
    forall|i: int| 0 <= i < store.len() ==> #[trigger] record_engine_returns(store, i)
}

/// What triangulating one face with a resolvable surface does to the buffers,
/// for a given resolution `bcs` of its bounds: the vertex buffer gains
/// exactly the stored boundary points with their surface normals and one
/// shared placeholder color; and either the engine accepts the projected
/// points under the bounds' constraint cycles and the triangle buffer gains
/// exactly its triangles, lifted by the face's vertex offset and wound per
/// the sense and sign flags, or the face is skipped: triangles unchanged and
/// the surface id recorded.
pub open spec fn face_output_with(
    store: Seq<Entity>,
    bounds: Seq<Id>,
    surface: Id,
    same_sense: bool,
    bcs: Seq<Seq<Point3>>,
    v0: Seq<Vertex>,
    t0: Seq<Triangle>,
    k0: Seq<Id>,
    v1: Seq<Vertex>,
    t1: Seq<Triangle>,
    k1: Seq<Id>,
) -> bool {
    let s = resolved_surface(store, surface);
    let sp = stored_pts(bcs);
    let pts2 = face_pts2(store, surface, bcs);
    let eds_us = face_eds_us(bcs);
    &&& bcs.len() == bounds.len()
    &&& (forall|k: int| 0 <= k < bcs.len() ==> face_bound_ok_val(store, bounds[k], #[trigger] bcs[k]))
    &&& v1.len() == v0.len() + sp.len()
    &&& (forall|j: int|
        0 <= j < sp.len() ==> (#[trigger] v1[v0.len() + j]).pos == sp[j] && v1[v0.len() + j].norm
            == surface_normal(s, sp[j]))
    &&& (forall|j: int, l: int|
        0 <= j < sp.len() && 0 <= l < sp.len() ==> (#[trigger] v1[v0.len() + j]).color == (
        #[trigger] v1[v0.len() + l]).color)
    &&& (forall|j: int|
        0 <= j < sp.len() ==> f32_bits((#[trigger] v1[v0.len() + j]).color) == (
            0u32,
            0u32,
            0u32,
        ))
    &&& if v0.len() + sp.len() <= u32::MAX && cdt_accepts(pts2, eds_us) {
        let tris = cdt_triangles(pts2, eds_us);
        &&& (forall|k: int|
            0 <= k < tris.len() ==> (#[trigger] tris[k]).0 < sp.len() && tris[k].1 < sp.len()
                && tris[k].2 < sp.len())
        &&& t1 == t0 + Seq::new(
            tris.len(),
            |k: int| oriented_tri(tris[k], v0.len() as int, same_sense != (s is Cylinder)),
        )
        &&& k1 == k0
    } else {
        &&& t1 == t0
        &&& k1 == k0.push(surface)
    }
}

/// What one store record does to the mesh buffers when the walk reaches it:
/// a face record with an unsupported surface only records itself as skipped,
/// a face record with a resolvable surface contributes per `face_output_ok`,
/// and every other record leaves the buffers alone.
pub open spec fn face_step_ok(
    store: Seq<Entity>,
    i: int,
    pre: (Seq<Vertex>, Seq<Triangle>, Seq<Id>),
    post: (Seq<Vertex>, Seq<Triangle>, Seq<Id>),
) -> bool {
    match store[i] {
        Entity::AdvancedFace { bounds, surface, same_sense } => if surface_unsupported(
            store,
            surface,
        ) {
            post == (pre.0, pre.1, pre.2.push(surface))
        } else {
            surface_resolvable(store, surface) && face_output_ok(
                store,
                bounds@,
                surface,
                same_sense,
                pre.0,
                pre.1,
                pre.2,
                post.0,
                post.1,
                post.2,
            )
        },
        _ => post == pre,
    }
}

/// The whole walk: a chain of mesh states, one before each record, stepping
/// by `face_step_ok` from the initial buffers to the final ones.
pub open spec fn walk_ok(
    store: Seq<Entity>,
    init: (Seq<Vertex>, Seq<Triangle>, Seq<Id>),
    fin: (Seq<Vertex>, Seq<Triangle>, Seq<Id>),
) -> bool {
    exists|st: Seq<(Seq<Vertex>, Seq<Triangle>, Seq<Id>)>|
        {
            &&& st.len() == store.len() + 1
            &&& st[0] == init
            &&& st[store.len() as int] == fin
            &&& (forall|i: int|
                0 <= i < store.len() ==> face_step_ok(store, i, #[trigger] st[i], st[i + 1]))
        }
}

/// The vertex and triangle buffers are the triangulation of the store: a
/// walk from empty buffers, with some record of skipped faces.
pub open spec fn triangulated(store: Seq<Entity>, vs: Seq<Vertex>, ts: Seq<Triangle>) -> bool {
    exists|sk: Seq<Id>|
        walk_ok(
            store,
            (Seq::<Vertex>::empty(), Seq::<Triangle>::empty(), Seq::<Id>::empty()),
            (vs, ts, sk),
        )
}

/// `face_output_with` for some resolution of the bounds.
pub open spec fn face_output_ok(
    store: Seq<Entity>,
    bounds: Seq<Id>,
    surface: Id,
    same_sense: bool,
    v0: Seq<Vertex>,
    t0: Seq<Triangle>,
    k0: Seq<Id>,
    v1: Seq<Vertex>,
    t1: Seq<Triangle>,
    k1: Seq<Id>,
) -> bool {
    exists|bcs: Seq<Seq<Point3>>|
        face_output_with(store, bounds, surface, same_sense, bcs, v0, t0, k0, v1, t1, k1)
}

/// The triangulator: the read-only entity store and the growing global mesh
/// buffers, plus the identifiers of faces skipped with a diagnostic.
pub struct Triangulator<'a> {
    pub data: &'a [Entity],
    pub vertices: Vec<Vertex>,
    pub triangles: Vec<Triangle>,
    pub skipped: Vec<Id>,
}

impl<'a> Triangulator<'a> {
    /// Every triangle indexes into the vertex buffer.
    pub open spec fn wf(self) -> bool {
        forall|k: int|
            0 <= k < self.triangles@.len() ==> tri_in_range(
                #[trigger] self.triangles@[k],
                self.vertices@.len() as int,
            )
    }

    /// An empty mesh over the given store.
    pub fn new(d: &'a [Entity]) -> (t: Self)
        ensures
            t.data@ == d@,
            t.vertices@.len() == 0,
            t.triangles@.len() == 0,
            t.skipped@.len() == 0,
            t.wf(),
    {
        Triangulator { data: d, vertices: Vec::new(), triangles: Vec::new(), skipped: Vec::new() }
    }

    /// Triangulates every face of the store into a fresh mesh.
    pub fn run(d: &'a [Entity]) -> (r: Result<Self, StepError>)
        requires
            store_engine_returns(d@),
        ensures
            r is Ok <==> store_faces_ok(d@),
            r matches Ok(t) ==> t.wf() && t.data@ == d@,
            (forall|i: int|
                0 <= i < d@.len() ==> !((#[trigger] d@[i]) matches Entity::AdvancedFace {
                    ..
                })) ==> (r matches Ok(t) && t.vertices@.len() == 0 && t.triangles@.len() == 0
                && t.skipped@.len() == 0),
            r matches Ok(t) ==> walk_ok(
                d@,
                (Seq::<Vertex>::empty(), Seq::<Triangle>::empty(), Seq::<Id>::empty()),
                (t.vertices@, t.triangles@, t.skipped@),
            ),
    {
        let mut t = Self::new(d);
        proof {
            assert(t.vertices@ =~= Seq::<Vertex>::empty());
            assert(t.triangles@ =~= Seq::<Triangle>::empty());
            assert(t.skipped@ =~= Seq::<Id>::empty());
        }
        t.triangulate()?;
        Ok(t)
    }

    /// Resolves an identifier against the store.
    fn entity(&self, i: Id) -> (r: Result<&'a Entity, StepError>)
        ensures
            i < self.data@.len() ==> (r matches Ok(e) && *e == self.data@[i as int]),
            i >= self.data@.len() ==> r == Err::<&'a Entity, StepError>(StepError::IdOutOfRange(i)),
    {
        let d: &'a [Entity] = self.data;
        if i < d.len() {
            Ok(&d[i])
        } else {
            Err(StepError::IdOutOfRange(i))
        }
    }

    /// Resolves a cartesian point, reporting the exact schema violation
    /// otherwise.
    pub fn vertex_point(&self, vertex_geometry: Id) -> (r: Result<Point3, StepError>)
        ensures
            r is Ok <==> is_point(self.data@, vertex_geometry),
            r matches Ok(p) ==> p == point_of(self.data@, vertex_geometry),
            r matches Err(e) ==> e == pt_err(self.data@, vertex_geometry),
    {
        match self.entity(vertex_geometry)? {
            Entity::CartesianPoint { coords } => Ok(*coords),
            _ => Err(StepError::NotCartesianPoint(vertex_geometry)),
        }
    }

    /// Resolves a direction record.
    fn direction(&self, i: Id) -> (r: Result<Point3, StepError>)
        ensures
            r is Ok <==> is_direction(self.data@, i),
            r matches Ok(p) ==> p == dir_of(self.data@, i),
            r matches Err(e) ==> e == dir_err(self.data@, i),
    {
        match self.entity(i)? {
            Entity::Direction { dir } => Ok(*dir),
            _ => Err(StepError::NotDirection(i)),
        }
    }

    /// Resolves a vector record into its direction scaled by its magnitude.
    pub fn vector(&self, orientation: Id, magnitude: &Scalar1) -> (r: Result<Point3, StepError>)
        ensures
            r is Ok <==> is_direction(self.data@, orientation),
            r matches Ok(d) ==> d == scaled_dir(dir_of(self.data@, orientation), *magnitude),
            r matches Err(e) ==> e == dir_err(self.data@, orientation),
    {
        let d = self.direction(orientation)?;
        Ok(scale_dir(&d, magnitude))
    }

    /// Resolves the location, axis and reference direction of an axis
    /// placement from their three identifiers.
    pub fn axis2_placement_3d(&self, location: Id, axis: Id, ref_direction: Id) -> (r: Result<
        (Point3, Point3, Point3),
        StepError,
    >)
        ensures
            r is Ok <==> (is_point(self.data@, location) && is_direction(self.data@, axis)
                && is_direction(self.data@, ref_direction)),
            r matches Ok(t) ==> t.0 == point_of(self.data@, location) && t.1 == dir_of(
                self.data@,
                axis,
            ) && t.2 == dir_of(self.data@, ref_direction),
            !is_point(self.data@, location) ==> r == Err::<(Point3, Point3, Point3), StepError>(
                pt_err(self.data@, location),
            ),
            is_point(self.data@, location) && !is_direction(self.data@, axis) ==> r == Err::<
                (Point3, Point3, Point3),
                StepError,
            >(dir_err(self.data@, axis)),
            is_point(self.data@, location) && is_direction(self.data@, axis) && !is_direction(
                self.data@,
                ref_direction,
            ) ==> r == Err::<(Point3, Point3, Point3), StepError>(
                dir_err(self.data@, ref_direction),
            ),
    {
        let l = self.vertex_point(location)?;
        let a = self.direction(axis)?;
        let rd = self.direction(ref_direction)?;
        Ok((l, a, rd))
    }

    /// Resolves an axis placement record and all three of its parts.
    pub fn axis2_placement_3d_(&self, id: Id) -> (r: Result<(Point3, Point3, Point3), StepError>)
        ensures
            r is Ok <==> placement_ok(self.data@, id),
            r matches Ok(t) ==> t.0 == point_of(self.data@, axis2_location(self.data@, id))
                && t.1 == dir_of(self.data@, axis2_axis(self.data@, id)) && t.2 == dir_of(
                self.data@,
                axis2_ref_direction(self.data@, id),
            ),
            r matches Err(e) ==> e == placement_err(self.data@, id),
    {
        match self.entity(id)? {
            Entity::Axis2Placement3d { location, axis, ref_direction } => self.axis2_placement_3d(
                *location,
                *axis,
                *ref_direction,
            ),
            _ => Err(StepError::NotAxis2Placement(id)),
        }
    }

    /// Samples a line between the two resolved endpoints: exactly `[u, v]`
    /// after the offsets along the direction re-project consistently;
    /// a failed check is a structural error of the input file.
    pub fn line(&self, u: &Point3, v: &Point3, pnt: Id, dir: Id, geometry: Id) -> (r: Result<
        Vec<Point3>,
        StepError,
    >)
        ensures
            line_post(self.data@, *u, *v, pnt, dir, geometry, r),
    {
        let p = self.vertex_point(pnt)?;
        let d = match self.entity(dir)? {
            Entity::Vector { orientation, magnitude } => self.vector(*orientation, magnitude)?,
            _ => {
                return Err(StepError::NotVector(dir));
            },
        };
        if line_consistent(u, v, &p, &d) {
            let out: Vec<Point3> = vec![*u, *v];
            assert(out@ =~= seq![*u, *v]);
            Ok(out)
        } else {
            Err(StepError::InconsistentLine(geometry))
        }
    }

    /// Samples a circular or elliptical arc between the two resolved
    /// endpoints: angles are taken in the ellipse-plane basis, the travel
    /// direction is fixed by the sense flag (a closed arc is one full turn),
    /// and the samples interpolate the two angles, the first and last
    /// replaced by the exact endpoints.
    pub fn ellipse(
        &self,
        u: &Point3,
        v: &Point3,
        position: Id,
        radius1: &Scalar1,
        radius2: &Scalar1,
        closed: bool,
        dir: bool,
    ) -> (r: Result<Vec<Point3>, StepError>)
        ensures
            arc_case(self.data@, *u, *v, position, *radius1, *radius2, closed, dir, r),
    {
        let (location, axis, ref_direction) = self.axis2_placement_3d_(position)?;
        let x_world = scale_dir(&ref_direction, radius1);
        let y_world = scale_dir(&cross_dir(&axis, &ref_direction), radius2);
        let world_from_eplane = make_affine_transform(&axis, &x_world, &y_world, &location);
        proof {
            assert(world_from_eplane == arc_basis_at(self.data@, position, *radius1, *radius2));
        }
        let eplane_from_world = match mat_inverse(&world_from_eplane) {
            Some(m) => m,
            None => {
                return Err(StepError::DegeneratePlacement(position));
            },
        };
        let u_ang = eplane_angle(&eplane_from_world, u);
        let mut v_ang = eplane_angle(&eplane_from_world, v);
        if closed {
            v_ang = if dir {
                add_full_turn(&u_ang)
            } else {
                sub_full_turn(&u_ang)
            };
        } else if dir && scalar_le(&v_ang, &u_ang) {
            v_ang = add_full_turn(&v_ang);
        } else if !dir && scalar_le(&u_ang, &v_ang) {
            v_ang = sub_full_turn(&v_ang);
        }
        proof {
            assert(v_ang == arc_v_angle(inverse_of(world_from_eplane), *u, *v, closed, dir));
        }
        let steps = arc_steps(&u_ang, &v_ang, SAMPLES_PER_TURN);
        let count: u32 = if steps < 4 {
            4
        } else {
            steps
        };
        let mut out: Vec<Point3> = Vec::new();
        out.push(*u);
        let mut i: u32 = 1;
        while i < count - 1
            invariant
                4 <= count,
                count == arc_count(u_ang, v_ang),
                1 <= i <= count - 1,
                out@.len() == i,
                out@[0] == *u,
                forall|j: int|
                    1 <= j < i ==> out@[j] == circle_pt(
                        world_from_eplane,
                        lerp_of(u_ang, v_ang, j as u32, (count - 1) as u32),
                    ),
            decreases count - i,
        {
            let ang = lerp_angle(&u_ang, &v_ang, i, count - 1);
            out.push(eplane_point(&world_from_eplane, &ang));
            i = i + 1;
        }
        out.push(*v);
        Ok(out)
    }

    /// Samples one edge curve: the start and end vertices are resolved, then
    /// the geometry record picks the sampler.  A free-form boundary curve is
    /// unsupported and contributes an empty sequence; the enclosing loop may
    /// come out malformed, which the face triangulation then reports.
    pub fn edge_curve(
        &self,
        edge_start: Id,
        edge_end: Id,
        edge_geometry: Id,
        same_sense: bool,
        flip: bool,
    ) -> (r: Result<Vec<Point3>, StepError>)
        ensures
            edge_curve_post(self.data@, edge_start, edge_end, edge_geometry, same_sense, flip, r),
    {
        let u = match self.entity(edge_start)? {
            Entity::VertexPoint { geometry } => self.vertex_point(*geometry)?,
            _ => {
                return Err(StepError::NotVertexPoint(edge_start));
            },
        };
        let v = match self.entity(edge_end)? {
            Entity::VertexPoint { geometry } => self.vertex_point(*geometry)?,
            _ => {
                return Err(StepError::NotVertexPoint(edge_end));
            },
        };
        match self.entity(edge_geometry)? {
            Entity::Circle { position, radius } => self.ellipse(
                &u,
                &v,
                *position,
                radius,
                radius,
                edge_start == edge_end,
                same_sense ^ flip,
            ),
            Entity::Line { point, direction } => self.line(&u, &v, *point, *direction, edge_geometry),
            Entity::Ellipse { position, radius1, radius2 } => self.ellipse(
                &u,
                &v,
                *position,
                radius1,
                radius2,
                edge_start == edge_end,
                same_sense ^ flip,
            ),
            Entity::BSplineCurveWithKnots => {
                let out: Vec<Point3> = Vec::new();
                Ok(out)
            },
            _ => Err(StepError::UnknownCurve(edge_geometry)),
        }
    }

    /// Samples one oriented edge: the underlying edge curve with its
    /// endpoints swapped per the edge's own orientation flag.
    pub fn oriented_edge(&self, element: Id, orientation: bool) -> (r: Result<
        Vec<Point3>,
        StepError,
    >)
        ensures
            !is_edge_curve(self.data@, element) ==> r == Err::<Vec<Point3>, StepError>(
                ec_err(self.data@, element),
            ),
            is_edge_curve(self.data@, element) ==> edge_curve_post(
                self.data@,
                if orientation {
                    ec_start(self.data@, element)
                } else {
                    ec_end(self.data@, element)
                },
                if orientation {
                    ec_end(self.data@, element)
                } else {
                    ec_start(self.data@, element)
                },
                ec_geometry(self.data@, element),
                ec_same_sense(self.data@, element),
                !orientation,
                r,
            ),
    {
        match self.entity(element)? {
            Entity::EdgeCurve { start, end, geometry, same_sense } => {
                let (s, e) = if orientation {
                    (*start, *end)
                } else {
                    (*end, *start)
                };
                self.edge_curve(s, e, *geometry, *same_sense, !orientation)
            },
            _ => Err(StepError::NotEdgeCurve(element)),
        }
    }

    /// Concatenates the samples of a loop's oriented edges, dropping the
    /// accumulated polyline's last point before each following edge (the
    /// shared point that begins it).
    pub fn edge_loop(&self, edge_list: &Vec<Id>) -> (r: Result<Vec<Point3>, StepError>)
        ensures
            r is Ok <==> loop_can_ok(self.data@, edge_list@),
            r matches Ok(pts) ==> edge_loop_ok_val(self.data@, edge_list@, pts@),
            edge_list@.len() == 0 ==> (r matches Ok(pts) && pts@.len() == 0),
    {
        let mut out: Vec<Point3> = Vec::new();
        let ghost mut segs: Seq<Seq<Point3>> = Seq::empty();
        let mut i: usize = 0;
        while i < edge_list.len()
            invariant
                i <= edge_list@.len(),
                segs.len() == i,
                forall|k: int| 0 <= k < i ==> oe_ok(self.data@, edge_list@[k], #[trigger] segs[k]),
                forall|k: int| 0 <= k < i ==> oe_can_ok(self.data@, #[trigger] edge_list@[k]),
                out@ == join_segments(segs),
            decreases edge_list@.len() - i,
        {
            if i > 0 {
                let _ = out.pop();
            }
            let e = edge_list[i];
            let record = match self.entity(e) {
                Ok(record) => record,
                Err(err) => {
                    proof {
                        assert(!oe_can_ok(self.data@, edge_list@[i as int]));
                    }
                    return Err(err);
                },
            };
            match record {
                Entity::OrientedEdge { element, orientation } => {
                    let mut o = match self.oriented_edge(*element, *orientation) {
                        Ok(o) => o,
                        Err(err) => {
                            proof {
                                assert(!oe_can_ok(self.data@, edge_list@[i as int]));
                            }
                            return Err(err);
                        },
                    };
                    let ghost seg = o@;
                    out.append(&mut o);
                    proof {
                        let prev = segs;
                        segs = segs.push(seg);
                        assert(segs.drop_last() =~= prev);
                        assert(segs.last() == seg);
                        if i == 0 {
                            assert(out@ =~= join_segments(segs));
                        } else {
                            assert(out@ == drop_last_of(join_segments(prev)) + seg);
                            assert(out@ =~= join_segments(segs));
                        }
                        assert(oe_can_ok(self.data@, edge_list@[i as int]));
                    }
                },
                _ => {
                    proof {
                        assert(!oe_can_ok(self.data@, edge_list@[i as int]));
                    }
                    return Err(StepError::NotOrientedEdge(e));
                },
            }
            i = i + 1;
        }
        proof {
            assert(edge_loop_ok_val(self.data@, edge_list@, out@));
        }
        Ok(out)
    }

    /// Walks one face bound into an ordered, closed polyline.  A vertex loop
    /// (the apex degeneracy) gives the single resolved point; an edge loop is
    /// concatenated and reversed when the bound's orientation flag is
    /// cleared.
    pub fn face_bounds(&self, bound: Id, orientation: bool) -> (r: Result<Vec<Point3>, StepError>)
        ensures
            r is Ok <==> bound_can_ok(self.data@, bound),
            bound >= self.data@.len() ==> r == Err::<Vec<Point3>, StepError>(
                StepError::IdOutOfRange(bound),
            ),
            bound < self.data@.len() ==> (self.data@[bound as int] matches Entity::VertexLoop {
                vertex,
            } ==> ({
                &&& (r is Ok <==> is_vertex(self.data@, vertex))
                &&& (r matches Ok(pts) ==> pts@.len() == 1 && pts@[0] == vertex_of(
                    self.data@,
                    vertex,
                ))
                &&& (r matches Err(e) ==> e == vp_err(self.data@, vertex))
            })),
            bound < self.data@.len() ==> (self.data@[bound as int] matches Entity::EdgeLoop {
                edges,
            } ==> (r matches Ok(pts) ==> exists|raw: Seq<Point3>|
                edge_loop_ok_val(self.data@, edges@, raw) && pts@ == (if orientation {
                    raw
                } else {
                    raw.reverse()
                }))),
            bound < self.data@.len() && !(self.data@[bound as int] matches Entity::VertexLoop { .. })
                && !(self.data@[bound as int] matches Entity::EdgeLoop { .. }) ==> r == Err::<
                Vec<Point3>,
                StepError,
            >(StepError::NotLoop(bound)),
    {
        match self.entity(bound)? {
            Entity::EdgeLoop { edges } => {
                let d = self.edge_loop(edges)?;
                if !orientation {
                    Ok(reversed(&d))
                } else {
                    Ok(d)
                }
            },
            Entity::VertexLoop { vertex } => {
                let u = match self.entity(*vertex)? {
                    Entity::VertexPoint { geometry } => self.vertex_point(*geometry)?,
                    _ => {
                        return Err(StepError::NotVertexPoint(*vertex));
                    },
                };
                let out: Vec<Point3> = vec![u];
                Ok(out)
            },
            _ => Err(StepError::NotLoop(bound)),
        }
    }

    /// Resolves every identifier of a control-point grid to its coordinates.
    pub fn get_control_points(&self, c: &Vec<Vec<Id>>) -> (r: Result<Vec<Vec<Point3>>, StepError>)
        ensures
            r is Ok <==> grid_ok(self.data@, c@),
            r matches Ok(g) ==> g@.len() == c@.len() && (forall|i: int|
                0 <= i < c@.len() ==> (#[trigger] g@[i])@.len() == c@[i]@.len() && (forall|j: int|
                    0 <= j < c@[i]@.len() ==> (#[trigger] g@[i]@[j]) == point_of(
                        self.data@,
                        c@[i]@[j],
                    ))),
    {
        let mut outer: Vec<Vec<Point3>> = Vec::new();
        let mut i: usize = 0;
        while i < c.len()
            invariant
                i <= c@.len(),
                outer@.len() == i,
                forall|k: int| 0 <= k < i ==> row_ok(self.data@, c@[k]@),
                forall|k: int|
                    0 <= k < i ==> (#[trigger] outer@[k])@.len() == c@[k]@.len() && (forall|j: int|
                        0 <= j < c@[k]@.len() ==> (#[trigger] outer@[k]@[j]) == point_of(
                            self.data@,
                            c@[k]@[j],
                        )),
            decreases c@.len() - i,
        {
            let row = &c[i];
            let mut inner: Vec<Point3> = Vec::new();
            let mut j: usize = 0;
            while j < row.len()
                invariant
                    j <= row@.len(),
                    row@ == c@[i as int]@,
                    i < c@.len(),
                    inner@.len() == j,
                    forall|k: int| 0 <= k < j ==> is_point(self.data@, row@[k]),
                    forall|k: int|
                        0 <= k < j ==> #[trigger] inner@[k] == point_of(self.data@, row@[k]),
                decreases row@.len() - j,
            {
                let p = self.vertex_point(row[j])?;
                inner.push(p);
                j = j + 1;
            }
            outer.push(inner);
            i = i + 1;
        }
        Ok(outer)
    }

    /// Resolves a face's surface record into a parameterization.  Cones are
    /// approximated by the plane through their placement; an unrecognized
    /// family gives `None` and the face is skipped with a diagnostic.  A
    /// free-form patch has its structure checked and its control points
    /// resolved, but no evaluation backend for such patches is available to
    /// this crate, so its face is skipped as well.
    pub fn get_surface(&self, surface: Id) -> (r: Result<Option<Surface>, StepError>)
        ensures
            get_surface_post(self.data@, surface, r),
            r matches Ok(o) ==> ((o is Some) <==> surface_resolvable(self.data@, surface)),
            r matches Ok(o) ==> (o matches Some(s) ==> s == resolved_surface(self.data@, surface)),
            r matches Ok(o) ==> ((o is None) <==> surface_unsupported(self.data@, surface)),
            r is Err ==> !surface_unsupported(self.data@, surface),
            r is Err ==> !surface_resolvable(self.data@, surface),
    {
        match self.entity(surface)? {
            Entity::CylindricalSurface { position, radius } => {
                let (location, axis, ref_direction) = self.axis2_placement_3d_(*position)?;
                match Surface::new_cylinder(&axis, &ref_direction, &location, radius) {
                    Some(s) => Ok(Some(s)),
                    None => Err(StepError::DegeneratePlacement(*position)),
                }
            },
            Entity::Plane { position } => {
                let (location, axis, ref_direction) = self.axis2_placement_3d_(*position)?;
                match Surface::new_plane(&axis, &ref_direction, &location) {
                    Some(s) => Ok(Some(s)),
                    None => Err(StepError::DegeneratePlacement(*position)),
                }
            },
            Entity::ConicalSurface { position, .. } => {
                let (location, axis, ref_direction) = self.axis2_placement_3d_(*position)?;
                match Surface::new_plane(&axis, &ref_direction, &location) {
                    Some(s) => Ok(Some(s)),
                    None => Err(StepError::DegeneratePlacement(*position)),
                }
            },
            Entity::BSplineSurfaceWithKnots {
                u_closed,
                v_closed,
                self_intersect,
                control_points,
                ..
            } => {
                if *u_closed || *v_closed || *self_intersect {
                    return Err(StepError::UnsupportedBSplinePatch(surface));
                }
                let _grid = self.get_control_points(control_points)?;
                Ok(None)
            },
            _ => Ok(None),
        }
    }

    /// Projects one bound's polyline into the shared per-face buffers: each
    /// stored point joins the 2D buffer (lowered through the surface) and the
    /// global vertex buffer in step, with the surface's normal there and the
    /// given placeholder color; a multi-point loop contributes its closed
    /// constraint cycle, a one-point loop only its point, and an empty bound
    /// nothing.
    fn add_bound(
        &mut self,
        s: &Surface,
        bc: &Vec<Point3>,
        color: Point3,
        pts: &mut Vec<Point2>,
        edges: &mut Vec<(usize, usize)>,
    )
        requires
            old(self).wf(),
        ensures
            final(self).wf(),
            final(self).data == old(self).data,
            final(self).triangles@ == old(self).triangles@,
            final(self).skipped@ == old(self).skipped@,
            seq_extends(old(self).vertices@, final(self).vertices@),
            seq_extends(old(pts)@, final(pts)@),
            seq_extends(old(edges)@, final(edges)@),
            final(pts)@.len() == old(pts)@.len() + stored_of(bc@).len(),
            final(self).vertices@.len() == old(self).vertices@.len() + stored_of(bc@).len(),
            forall|j: int|
                0 <= j < stored_of(bc@).len() ==> {
                    let w = #[trigger] final(self).vertices@[old(self).vertices@.len() + j];
                    &&& w.pos == stored_of(bc@)[j]
                    &&& w.norm == surface_normal(*s, stored_of(bc@)[j])
                    &&& w.color == color
                },
            forall|j: int|
                0 <= j < stored_of(bc@).len() ==> #[trigger] final(pts)@[old(pts)@.len() + j]
                    == surface_project(*s, stored_of(bc@)[j]),
            final(edges)@.len() == old(edges)@.len() + edges_of(bc@, old(pts)@.len() as int).len(),
            forall|j: int|
                0 <= j < edges_of(bc@, old(pts)@.len() as int).len() ==> edge_as_int(
                    #[trigger] final(edges)@[old(edges)@.len() + j],
                ) == edges_of(bc@, old(pts)@.len() as int)[j],
    {
        let m = bc.len();
        if m == 0 {
            return ;
        }
        if m == 1 {
            let proj = s.lower(&bc[0]);
            let nrm = s.normal(&bc[0], &proj);
            pts.push(proj);
            self.vertices.push(Vertex { pos: bc[0], norm: nrm, color });
            return ;
        }
        let start = pts.len();
        let ghost v0 = self.vertices@;
        let ghost p0 = pts@;
        let ghost e0 = edges@;
        let mut i: usize = 0;
        while i < m
            invariant
                self.wf(),
                2 <= m == bc@.len(),
                0 <= i <= m,
                start == p0.len(),
                self.data == old(self).data,
                self.triangles@ == old(self).triangles@,
                self.skipped@ == old(self).skipped@,
                self.vertices@.len() == v0.len() + i,
                pts@.len() == p0.len() + i,
                edges@.len() == e0.len() + i,
                seq_extends(v0, self.vertices@),
                seq_extends(p0, pts@),
                seq_extends(e0, edges@),
                v0 == old(self).vertices@,
                p0 == old(pts)@,
                e0 == old(edges)@,
                forall|j: int|
                    0 <= j < i ==> {
                        let w = #[trigger] self.vertices@[v0.len() + j];
                        &&& w.pos == bc@[j]
                        &&& w.norm == surface_normal(*s, bc@[j])
                        &&& w.color == color
                    },
                forall|j: int|
                    0 <= j < i ==> #[trigger] pts@[p0.len() + j] == surface_project(*s, bc@[j]),
                forall|j: int|
                    0 <= j < i ==> edge_as_int(#[trigger] edges@[e0.len() + j]) == (
                        start + j,
                        start + j + 1,
                    ),
                start + i <= usize::MAX,
            decreases m - i,
        {
            let proj = s.lower(&bc[i]);
            let nrm = s.normal(&bc[i], &proj);
            pts.push(proj);
            let n = pts.len();
            edges.push((n - 1, n));
            self.vertices.push(Vertex { pos: bc[i], norm: nrm, color });
            i = i + 1;
        }
        let _ = pts.pop();
        let _ = self.vertices.pop();
        let _ = edges.pop();
        let last = edges.pop().unwrap();
        edges.push((last.0, start));
        proof {
            assert(stored_of(bc@) =~= bc@.take(m - 1));
            assert(forall|j: int|
                0 <= j < m - 1 ==> edge_as_int(#[trigger] edges@[e0.len() + j]) == cycle_edge(
                    start as int,
                    (m - 1) as int,
                    j,
                ));
        }
    }

    /// Emits one triangle of the face's triangulation, lifted by the face's
    /// vertex offset and wound per the orientation flag.
    fn push_triangle(&mut self, t: (usize, usize, usize), offset: usize, keep: bool)
        requires
            old(self).wf(),
            offset + t.0 < old(self).vertices@.len(),
            offset + t.1 < old(self).vertices@.len(),
            offset + t.2 < old(self).vertices@.len(),
            old(self).vertices@.len() <= u32::MAX,
        ensures
            final(self).triangles@ == old(self).triangles@.push(
                oriented_tri(t, offset as int, keep),
            ),
            final(self).vertices@ == old(self).vertices@,
            final(self).skipped@ == old(self).skipped@,
            final(self).data == old(self).data,
            final(self).wf(),
    {
        let a = (t.0 + offset) as u32;
        let b = (t.1 + offset) as u32;
        let c = (t.2 + offset) as u32;
        let tri = if keep {
            Triangle { verts: [a, b, c] }
        } else {
            Triangle { verts: [a, c, b] }
        };
        self.triangles.push(tri);
    }

    /// Triangulates one face: resolves its surface (skipping the face with a
    /// diagnostic when the family is unsupported), projects each bound into
    /// the constraint buffers, runs the constrained triangulation, and on
    /// success emits the engine's triangles lifted by the face's vertex
    /// offset and wound per the sense and sign flags.  A triangulation
    /// failure skips the face; its boundary vertices stay in the buffer.
    pub fn advanced_face(&mut self, bounds: &Vec<Id>, surface: Id, same_sense: bool) -> (r: Result<
        (),
        StepError,
    >)
        requires
            old(self).wf(),
            surface_resolvable(old(self).data@, surface) ==> face_engine_returns(
                old(self).data@,
                bounds@,
                surface,
            ),
        ensures
            r is Ok <==> face_can_ok(old(self).data@, bounds@, surface),
            final(self).wf(),
            final(self).data == old(self).data,
            seq_extends(old(self).vertices@, final(self).vertices@),
            seq_extends(old(self).triangles@, final(self).triangles@),
            seq_extends(old(self).skipped@, final(self).skipped@),
            r is Err ==> final(self).triangles@ == old(self).triangles@,
            r is Ok ==> surface_resolvable(old(self).data@, surface) || surface_unsupported(
                old(self).data@,
                surface,
            ),
            surface_unsupported(old(self).data@, surface) ==> (r is Ok
                && final(self).vertices@ == old(self).vertices@
                && final(self).triangles@ == old(self).triangles@
                && final(self).skipped@ == old(self).skipped@.push(surface)),
            r is Ok && surface_resolvable(old(self).data@, surface) ==> face_output_ok(
                old(self).data@,
                bounds@,
                surface,
                same_sense,
                old(self).vertices@,
                old(self).triangles@,
                old(self).skipped@,
                final(self).vertices@,
                final(self).triangles@,
                final(self).skipped@,
            ),
    {
        let ghost store = self.data@;
        let offset = self.vertices.len();
        let s = match self.get_surface(surface) {
            Ok(Some(s)) => s,
            Ok(None) => {
                self.skipped.push(surface);
                return Ok(());
            },
            Err(err) => {
                proof {
                    assert(!face_can_ok(store, bounds@, surface));
                }
                return Err(err);
            },
        };
        proof {
            assert(s == resolved_surface(store, surface));
        }
        let color = zero_vec3();
        let mut pts: Vec<Point2> = Vec::new();
        let mut edges: Vec<(usize, usize)> = Vec::new();
        let ghost mut bcs: Seq<Seq<Point3>> = Seq::empty();
        let mut bi: usize = 0;
        while bi < bounds.len()
            invariant
                self.wf(),
                bi <= bounds@.len(),
                self.data@ == store,
                self.data == old(self).data,
                self.triangles@ == old(self).triangles@,
                self.skipped@ == old(self).skipped@,
                seq_extends(old(self).vertices@, self.vertices@),
                offset == old(self).vertices@.len(),
                s == resolved_surface(store, surface),
                surface_resolvable(store, surface),
                !surface_unsupported(store, surface),
                f32_bits(color) == (0u32, 0u32, 0u32),
                bcs.len() == bi,
                forall|k: int|
                    0 <= k < bi ==> face_bound_ok_val(store, bounds@[k], #[trigger] bcs[k]),
                forall|k: int| 0 <= k < bi ==> face_bound_can(store, #[trigger] bounds@[k]),
                self.vertices@.len() == offset + stored_pts(bcs).len(),
                pts@.len() == stored_pts(bcs).len(),
                forall|j: int|
                    0 <= j < stored_pts(bcs).len() ==> {
                        let w = #[trigger] self.vertices@[offset + j];
                        &&& w.pos == stored_pts(bcs)[j]
                        &&& w.norm == surface_normal(s, stored_pts(bcs)[j])
                        &&& w.color == color
                    },
                forall|j: int|
                    0 <= j < stored_pts(bcs).len() ==> #[trigger] pts@[j] == surface_project(
                        s,
                        stored_pts(bcs)[j],
                    ),
                edges@.len() == face_edges(bcs, 0).len(),
                forall|j: int|
                    0 <= j < face_edges(bcs, 0).len() ==> edge_as_int(#[trigger] edges@[j])
                        == face_edges(bcs, 0)[j],
            decreases bounds@.len() - bi,
        {
            let b = bounds[bi];
            let record = match self.entity(b) {
                Ok(record) => record,
                Err(err) => {
                    proof {
                        assert(!face_bound_can(store, bounds@[bi as int]));
                        assert(!face_can_ok(store, bounds@, surface));
                    }
                    return Err(err);
                },
            };
            match record {
                Entity::FaceBound { bound, orientation } => {
                    let ghost b_id = b;
                    let bc = match self.face_bounds(*bound, *orientation) {
                        Ok(bc) => bc,
                        Err(err) => {
                            proof {
                                assert(crate::entities::fb_bound(store, b_id) == *bound);
                                assert(!bound_can_ok(store, *bound));
                                assert(!face_bound_can(store, bounds@[bi as int]));
                                assert(!face_can_ok(store, bounds@, surface));
                            }
                            return Err(err);
                        },
                    };
                    let ghost sp_before = stored_pts(bcs);
                    let ghost eds_before = face_edges(bcs, 0);
                    let ghost v_before = self.vertices@;
                    let ghost p_before = pts@;
                    let ghost e_before = edges@;
                    self.add_bound(&s, &bc, color, &mut pts, &mut edges);
                    proof {
                        let prev = bcs;
                        bcs = bcs.push(bc@);
                        assert(bcs.drop_last() =~= prev);
                        assert(bcs.last() == bc@);
                        assert(stored_pts(bcs) =~= sp_before + stored_of(bc@));
                        assert(face_edges(bcs, 0) =~= eds_before + edges_of(
                            bc@,
                            sp_before.len() as int,
                        ));
                        assert(is_face_bound(store, b_id));
                        let lp = crate::entities::fb_bound(store, b_id);
                        assert(lp == *bound);
                        assert(lp < store.len());
                        match store[lp as int] {
                            Entity::VertexLoop { vertex } => {
                                assert(bc@ =~= seq![vertex_of(store, vertex)]);
                            },
                            Entity::EdgeLoop { .. } => {},
                            _ => {
                                assert(false);
                            },
                        }
                        assert(face_bound_ok_val(store, bounds@[bi as int], bc@));
                        let sp_now = stored_pts(bcs);
                        assert forall|j: int| 0 <= j < sp_now.len() implies {
                            let w = #[trigger] self.vertices@[offset + j];
                            &&& w.pos == sp_now[j]
                            &&& w.norm == surface_normal(s, sp_now[j])
                            &&& w.color == color
                        } by {
                            if j < sp_before.len() {
                                assert(self.vertices@[offset + j] == v_before[offset + j]);
                                assert(sp_now[j] == sp_before[j]);
                            } else {
                                let jj = j - sp_before.len();
                                assert(sp_now[j] == stored_of(bc@)[jj]);
                                assert(self.vertices@[v_before.len() + jj].pos == stored_of(
                                    bc@,
                                )[jj]);
                                assert(v_before.len() + jj == offset + j);
                            }
                        };
                        assert forall|j: int| 0 <= j < sp_now.len() implies #[trigger] pts@[j]
                            == surface_project(s, sp_now[j]) by {
                            if j < sp_before.len() {
                                assert(pts@[j] == p_before[j]);
                                assert(sp_now[j] == sp_before[j]);
                            } else {
                                let jj = j - sp_before.len();
                                assert(sp_now[j] == stored_of(bc@)[jj]);
                                assert(pts@[p_before.len() + jj] == surface_project(
                                    s,
                                    stored_of(bc@)[jj],
                                ));
                                assert(p_before.len() + jj == j);
                            }
                        };
                        let eds_now = face_edges(bcs, 0);
                        assert forall|j: int| 0 <= j < eds_now.len() implies edge_as_int(
                            #[trigger] edges@[j],
                        ) == eds_now[j] by {
                            if j < eds_before.len() {
                                assert(edges@[j] == e_before[j]);
                                assert(eds_now[j] == eds_before[j]);
                            } else {
                                let jj = j - eds_before.len();
                                assert(eds_now[j] == edges_of(bc@, sp_before.len() as int)[jj]);
                                assert(edge_as_int(edges@[e_before.len() + jj]) == edges_of(
                                    bc@,
                                    sp_before.len() as int,
                                )[jj]);
                                assert(e_before.len() + jj == j);
                            }
                        };
                    }
                },
                _ => {
                    proof {
                        assert(!is_face_bound(store, bounds@[bi as int]));
                        assert(!face_bound_can(store, bounds@[bi as int]));
                        assert(!face_can_ok(store, bounds@, surface));
                    }
                    return Err(StepError::NotFaceBound(b));
                },
            }
            bi = bi + 1;
        }
        let ghost sp = stored_pts(bcs);
        let ghost pts2 = face_pts2(store, surface, bcs);
        let ghost eds = face_edges(bcs, 0);
        let ghost eds_us = face_eds_us(bcs);
        proof {
            assert(pts@ =~= pts2);
            assert forall|j: int| 0 <= j < eds.len() implies (#[trigger] eds_us[j])
                == edges@[j] by {
                assert(edge_as_int(edges@[j]) == eds[j]);
            }
            assert(edges@ =~= eds_us);
            assert(cdt_returns(face_pts2(store, surface, bcs), face_eds_us(bcs)));
            assert(cdt_returns(pts@, edges@));
            assert(face_can_ok(store, bounds@, surface));
        }
        match run_cdt(&pts, &edges) {
            Ok(tris) => {
                if self.vertices.len() > (u32::MAX as usize) {
                    self.skipped.push(surface);
                    proof {
                        assert(face_output_with(
                            store,
                            bounds@,
                            surface,
                            same_sense,
                            bcs,
                            old(self).vertices@,
                            old(self).triangles@,
                            old(self).skipped@,
                            self.vertices@,
                            self.triangles@,
                            self.skipped@,
                        ));
                    }
                    return Ok(());
                }
                let keep = same_sense ^ s.sign();
                let ghost t0 = self.triangles@;
                let ghost vsnap = self.vertices@;
                let ghost vlen = self.vertices@.len();
                let mut k: usize = 0;
                while k < tris.len()
                    invariant
                        self.wf(),
                        k <= tris@.len(),
                        self.data == old(self).data,
                        self.vertices@ == vsnap,
                        self.vertices@.len() == vlen,
                        vlen <= u32::MAX,
                        vlen == offset + pts@.len(),
                        seq_extends(old(self).vertices@, self.vertices@),
                        self.triangles@ == t0 + Seq::new(
                            k as nat,
                            |j: int| oriented_tri(tris@[j], offset as int, keep),
                        ),
                        self.skipped@ == old(self).skipped@,
                        offset == old(self).vertices@.len(),
                        forall|j: int|
                            0 <= j < tris@.len() ==> (#[trigger] tris@[j]).0 < pts@.len()
                                && tris@[j].1 < pts@.len() && tris@[j].2 < pts@.len(),
                    decreases tris@.len() - k,
                {
                    let t = tris[k];
                    self.push_triangle(t, offset, keep);
                    proof {
                        assert(self.triangles@ =~= t0 + Seq::new(
                            (k + 1) as nat,
                            |j: int| oriented_tri(tris@[j], offset as int, keep),
                        ));
                    }
                    k = k + 1;
                }
                proof {
                    assert(tris@ == cdt_triangles(pts2, eds_us));
                    assert(keep == (same_sense != (s is Cylinder)));
                    assert(self.triangles@ =~= old(self).triangles@ + Seq::new(
                        cdt_triangles(pts2, eds_us).len(),
                        |j: int|
                            oriented_tri(
                                cdt_triangles(pts2, eds_us)[j],
                                offset as int,
                                same_sense != (s is Cylinder),
                            ),
                    ));
                    assert(face_output_with(
                        store,
                        bounds@,
                        surface,
                        same_sense,
                        bcs,
                        old(self).vertices@,
                        old(self).triangles@,
                        old(self).skipped@,
                        self.vertices@,
                        self.triangles@,
                        self.skipped@,
                    ));
                }
                Ok(())
            },
            Err(_) => {
                self.skipped.push(surface);
                proof {
                    assert(face_output_with(
                        store,
                        bounds@,
                        surface,
                        same_sense,
                        bcs,
                        old(self).vertices@,
                        old(self).triangles@,
                        old(self).skipped@,
                        self.vertices@,
                        self.triangles@,
                        self.skipped@,
                    ));
                }
                Ok(())
            },
        }
    }

    /// Walks the whole store and triangulates every face record in it, in
    /// store order.
    pub fn triangulate(&mut self) -> (r: Result<(), StepError>)
        requires
            old(self).wf(),
            store_engine_returns(old(self).data@),
        ensures
            r is Ok <==> store_faces_ok(old(self).data@),
            final(self).wf(),
            final(self).data == old(self).data,
            seq_extends(old(self).vertices@, final(self).vertices@),
            seq_extends(old(self).triangles@, final(self).triangles@),
            seq_extends(old(self).skipped@, final(self).skipped@),
            (forall|i: int|
                0 <= i < old(self).data@.len() ==> !((#[trigger] old(self).data@[i])
                    matches Entity::AdvancedFace { .. })) ==> (r is Ok
                && final(self).vertices@ == old(self).vertices@
                && final(self).triangles@ == old(self).triangles@
                && final(self).skipped@ == old(self).skipped@),
            r is Ok ==> walk_ok(
                old(self).data@,
                (old(self).vertices@, old(self).triangles@, old(self).skipped@),
                (final(self).vertices@, final(self).triangles@, final(self).skipped@),
            ),
    {
        let d: &'a [Entity] = self.data;
        let ghost init = (old(self).vertices@, old(self).triangles@, old(self).skipped@);
        let ghost mut st: Seq<(Seq<Vertex>, Seq<Triangle>, Seq<Id>)> = seq![init];
        let mut i: usize = 0;
        while i < d.len()
            invariant
                self.wf(),
                i <= d@.len(),
                self.data@ == d@,
                self.data == old(self).data,
                seq_extends(old(self).vertices@, self.vertices@),
                seq_extends(old(self).triangles@, self.triangles@),
                seq_extends(old(self).skipped@, self.skipped@),
                (forall|k: int|
                    0 <= k < d@.len() ==> !((#[trigger] d@[k]) matches Entity::AdvancedFace {
                        ..
                    })) ==> (self.vertices@ == old(self).vertices@ && self.triangles@ == old(
                    self,
                ).triangles@ && self.skipped@ == old(self).skipped@),
                st.len() == i + 1,
                st[0] == (old(self).vertices@, old(self).triangles@, old(self).skipped@),
                st[i as int] == (self.vertices@, self.triangles@, self.skipped@),
                forall|k: int| 0 <= k < i ==> face_step_ok(d@, k, #[trigger] st[k], st[k + 1]),
                store_engine_returns(d@),
                forall|k: int| 0 <= k < i ==> #[trigger] face_record_ok(d@, k),
            decreases d@.len() - i,
        {
            let ghost pre = (self.vertices@, self.triangles@, self.skipped@);
            match &d[i] {
                Entity::AdvancedFace { bounds, surface, same_sense } => {
                    proof {
                        assert(record_engine_returns(d@, i as int));
                    }
                    match self.advanced_face(bounds, *surface, *same_sense) {
                        Ok(()) => {
                            proof {
                                assert(face_record_ok(d@, i as int));
                            }
                        },
                        Err(err) => {
                            proof {
                                assert(!face_record_ok(d@, i as int));
                                assert(!store_faces_ok(d@));
                            }
                            return Err(err);
                        },
                    }
                },
                _ => {
                    proof {
                        assert(face_record_ok(d@, i as int));
                    }
                },
            }
            proof {
                let post = (self.vertices@, self.triangles@, self.skipped@);
                assert(face_step_ok(d@, i as int, pre, post));
                st = st.push(post);
            }
            i = i + 1;
        }
        proof {
            assert(walk_ok(
                d@,
                (old(self).vertices@, old(self).triangles@, old(self).skipped@),
                (self.vertices@, self.triangles@, self.skipped@),
            ));
            assert(store_faces_ok(d@));
        }
        Ok(())
    }
}

/// A copy of the polyline in reverse order.
fn reversed(v: &Vec<Point3>) -> (r: Vec<Point3>)
    ensures
        r@ == v@.reverse(),
{
    let mut out: Vec<Point3> = Vec::new();
    let mut i: usize = v.len();
    while i > 0
        invariant
            i <= v@.len(),
            out@.len() == v@.len() - i,
            forall|j: int| 0 <= j < out@.len() ==> #[trigger] out@[j] == v@[v@.len() - 1 - j],
        decreases i,
    {
        i = i - 1;
        out.push(v[i]);
    }
    assert(out@ =~= v@.reverse());
    out
}

/// Triangulates the decoded model: the final vertex and triangle buffers, or
/// the structural violation that ended the run.
pub fn triangulate(store: &[Entity]) -> (r: Result<(Vec<Vertex>, Vec<Triangle>), StepError>)
    requires
        store_engine_returns(store@),
    ensures
        r is Ok <==> store_faces_ok(store@),
        r matches Ok(m) ==> forall|k: int|
            0 <= k < m.1@.len() ==> tri_in_range(#[trigger] m.1@[k], m.0@.len() as int),
        (forall|i: int|
            0 <= i < store@.len() ==> !((#[trigger] store@[i]) matches Entity::AdvancedFace {
                ..
            })) ==> (r matches Ok(m) && m.0@.len() == 0 && m.1@.len() == 0),
        r matches Ok(m) ==> triangulated(store@, m.0@, m.1@),
{
    let mut t = Triangulator::new(store);
    proof {
        assert(t.vertices@ =~= Seq::<Vertex>::empty());
        assert(t.triangles@ =~= Seq::<Triangle>::empty());
        assert(t.skipped@ =~= Seq::<Id>::empty());
    }
    t.triangulate()?;
    proof {
        assert(triangulated(store@, t.vertices@, t.triangles@)) by {
            assert(walk_ok(
                store@,
                (Seq::<Vertex>::empty(), Seq::<Triangle>::empty(), Seq::<Id>::empty()),
                (t.vertices@, t.triangles@, t.skipped@),
            ));
        }
    }
    Ok((t.vertices, t.triangles))
}

/// Closure law: the constraint edges a multi-point loop contributes form one
/// cycle over its `n` fresh point indices.  Edge `j` starts at point
/// `start + j` (so every loop point is visited exactly once), each edge ends
/// where the following edge begins, and the last edge returns to `start`.
pub proof fn lemma_loop_closure(start: int, n: int)
    requires
        1 <= n,
    ensures
        forall|j: int| 0 <= j < n ==> (#[trigger] cycle_seq(start, n)[j]).0 == start + j,
        forall|j: int, k: int|
            0 <= j < n && 0 <= k < n && j != k ==> (#[trigger] cycle_seq(start, n)[j]).0 != (
            #[trigger] cycle_seq(start, n)[k]).0,
        forall|j: int|
            0 <= j < n ==> (#[trigger] cycle_seq(start, n)[j]).1 == cycle_seq(start, n)[if j + 1
                < n {
                j + 1
            } else {
                0
            }].0,
        cycle_seq(start, n)[n - 1].1 == start,
{
}

/// Winding law: clearing the orientation flag emits the same triangle with
/// its second and third vertices exchanged, and the flag set keeps the order.
pub proof fn lemma_winding_swap(t: (usize, usize, usize), offset: int)
    ensures
        oriented_tri(t, offset, false).verts[0] == oriented_tri(t, offset, true).verts[0],
        oriented_tri(t, offset, false).verts[1] == oriented_tri(t, offset, true).verts[2],
        oriented_tri(t, offset, false).verts[2] == oriented_tri(t, offset, true).verts[1],
{
}

} // verus!
