//! Turns a boundary-representation solid, decoded into a flat entity store,
//! into a triangle mesh: it resolves each face's surface, walks the face's
//! boundary loops into ordered 3D polylines, projects them into the surface's
//! 2D parameter space, triangulates under the loop constraints, and lifts the
//! triangles back to 3D with consistent winding.
//!
//! Known limitation: free-form (B-spline) surface patches are validated
//! structurally and their control points resolved, but no NURBS evaluation
//! backend is available to this crate, so their faces are skipped with a
//! diagnostic rather than parameterized.

pub mod entities;
pub mod geom;
pub mod mesh;
pub mod surface;
pub mod triangulate;
