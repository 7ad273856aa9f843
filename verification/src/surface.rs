//! Surface parameterization: the closed set of surface families this core
//! projects boundary points through, dispatched by exhaustive match.
use vstd::prelude::*;

use crate::geom::{
    cylinder_normal, cylinder_normal_at, cylinder_project, inverse_of, invertible, lower_cylinder,
    lower_plane, make_rigid_transform, mat_inverse, plane_project, rigid_of, Mat4, Point2, Point3,
    Scalar1,
};

verus! {

/// A surface in 3D space with a projection of on-surface points down to a 2D
/// parameter space.  Cones are approximated by the plane through their
/// placement, as the decoded models expect.
pub enum Surface {
    Plane { normal: Point3, mat_i: Mat4 },
    Cylinder { location: Point3, axis: Point3, mat_i: Mat4, radius: Scalar1 },
}

/// What `lower` returns on each surface family.
pub open spec fn surface_project(s: Surface, p: Point3) -> Point2 {
    match s {
        Surface::Plane { mat_i, .. } => plane_project(mat_i, p),
        Surface::Cylinder { mat_i, radius, .. } => cylinder_project(mat_i, radius, p),
    }
}

/// What `normal` returns on each surface family.
pub open spec fn surface_normal(s: Surface, p: Point3) -> Point3 {
    match s {
        Surface::Plane { normal, .. } => normal,
        Surface::Cylinder { location, axis, .. } => cylinder_normal_at(location, axis, p),
    }
}

impl Surface {
    /// Builds the plane through `location` with the given normal `axis`,
    /// keeping the inverse of its rigid transform.  `None` when the placement
    /// is degenerate and cannot be inverted.
    pub fn new_plane(axis: &Point3, ref_direction: &Point3, location: &Point3) -> (r: Option<
        Surface,
    >)
        ensures
            r is Some <==> invertible(rigid_of(*axis, *ref_direction, *location)),
            r matches Some(s) ==> s == (Surface::Plane {
                normal: *axis,
                mat_i: inverse_of(rigid_of(*axis, *ref_direction, *location)),
            }),
    {
        let m = make_rigid_transform(axis, ref_direction, location);
        match mat_inverse(&m) {
            Some(mat_i) => Some(Surface::Plane { normal: *axis, mat_i }),
            None => None,
        }
    }

    /// Builds the cylinder around the axis through `location` with the given
    /// radius.  `None` when the placement is degenerate.
    pub fn new_cylinder(
        axis: &Point3,
        ref_direction: &Point3,
        location: &Point3,
        radius: &Scalar1,
    ) -> (r: Option<Surface>)
        ensures
            r is Some <==> invertible(rigid_of(*axis, *ref_direction, *location)),
            r matches Some(s) ==> s == (Surface::Cylinder {
                location: *location,
                axis: *axis,
                mat_i: inverse_of(rigid_of(*axis, *ref_direction, *location)),
                radius: *radius,
            }),
    {
        let m = make_rigid_transform(axis, ref_direction, location);
        match mat_inverse(&m) {
            Some(mat_i) => Some(
                Surface::Cylinder { location: *location, axis: *axis, mat_i, radius: *radius },
            ),
            None => None,
        }
    }

    /// Lowers a 3D point on this surface into its 2D parameter space.
    pub fn lower(&self, p: &Point3) -> (q: Point2)
        ensures
            q == surface_project(*self, *p),
    {
        match self {
            Surface::Plane { mat_i, .. } => lower_plane(mat_i, p),
            Surface::Cylinder { mat_i, radius, .. } => lower_cylinder(mat_i, radius, p),
        }
    }

    /// The surface normal at a 3D point; the 2D position is taken alongside
    /// for surface families whose normal is evaluated in parameter space.
    pub fn normal(&self, p: &Point3, _q: &Point2) -> (n: Point3)
        ensures
            n == surface_normal(*self, *p),
    {
        match self {
            Surface::Plane { normal, .. } => *normal,
            Surface::Cylinder { location, axis, .. } => cylinder_normal(location, axis, p),
        }
    }

    /// The orientation-sign flag of the family: an empirical pinned constant
    /// that keeps winding consistent between families whose natural
    /// parameterization handedness differs.
    pub fn sign(&self) -> (b: bool)
        ensures
            b == (self is Cylinder),
    {
        match self {
            Surface::Plane { .. } => false,
            Surface::Cylinder { .. } => true,
        }
    }
}

} // verus!
