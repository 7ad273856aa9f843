//! The trusted boundary around the outside linear-algebra and triangulation
//! crates.  Every value of an outside type is opaque here: the verified code
//! moves these values around, and each numeric kernel is one call through a
//! contract that states only what the outside source shows.
//!
//! The named results of the transcendental kernels (the logistic blend, the
//! angle, the circle point) rest on libm functions whose last bits are not
//! pinned across platforms; within one build they are fixed, which is all the
//! proofs use.
use vstd::prelude::*;

verus! {

#[verifier::external_type_specification]
#[verifier::external_body]
#[verifier::reject_recursive_types(T)]
#[verifier::reject_recursive_types(R)]
#[verifier::reject_recursive_types(C)]
#[verifier::reject_recursive_types(S)]
pub struct ExMatrix<T, R, C, S>(nalgebra::Matrix<T, R, C, S>);

#[verifier::external_type_specification]
pub struct ExConst<const R: usize>(nalgebra::Const<R>);

#[verifier::external_type_specification]
#[verifier::external_body]
#[verifier::reject_recursive_types(T)]
pub struct ExArrayStorage<T, const R: usize, const C: usize>(nalgebra::ArrayStorage<T, R, C>);

#[verifier::external_type_specification]
#[verifier::external_body]
pub struct ExCdtError(cdt::Error);

/// A 3D position or direction, held as an opaque double-precision vector.
pub type Point3 = nalgebra_glm::DVec3;

/// A 2D position in a surface's parameter space.
pub type Point2 = nalgebra_glm::DVec2;

/// One opaque double-precision scalar (a radius, a magnitude, an angle).
pub type Scalar1 = nalgebra_glm::DVec1;

/// A homogeneous 4x4 transform.
pub type Mat4 = nalgebra_glm::DMat4;

/// What projecting a point through a plane's inverse rigid transform and
/// dropping the depth coordinate returns: a function of the two arguments
/// alone.
pub uninterp spec fn plane_project(mat_i: Mat4, p: Point3) -> Point2;

/// What the cylinder parameterization (inverse rigid transform, then the
/// logistic blend of depth against the radius) returns for a point.
pub uninterp spec fn cylinder_project(mat_i: Mat4, radius: Scalar1, p: Point3) -> Point2;

/// The outward cylinder normal at a point: the unit vector from the point's
/// projection onto the axis towards the point.
pub uninterp spec fn cylinder_normal_at(location: Point3, axis: Point3, p: Point3) -> Point3;

/// The three little-endian bit patterns of a position's coordinates once
/// narrowed to single precision.
pub uninterp spec fn f32_bits(p: Point3) -> (u32, u32, u32);

/// A direction scaled by a magnitude: a function of the two arguments alone.
pub uninterp spec fn scaled_dir(d: Point3, m: Scalar1) -> Point3;

/// Whether re-projecting both endpoints' offsets along the direction
/// reproduces them within machine epsilon: a function of the arguments alone.
pub uninterp spec fn line_fits(u: Point3, v: Point3, pnt: Point3, dir: Point3) -> bool;

/// The rigid transform with columns x, z cross x, z and the origin.
pub uninterp spec fn rigid_of(z_world: Point3, x_world: Point3, origin: Point3) -> Mat4;

/// The affine transform with the given x, y, z columns and origin.
pub uninterp spec fn affine_of(z_world: Point3, x_world: Point3, y_world: Point3, origin: Point3) -> Mat4;

/// Whether the matrix has an inverse.
pub uninterp spec fn invertible(m: Mat4) -> bool;

/// The inverse of an invertible matrix.
pub uninterp spec fn inverse_of(m: Mat4) -> Mat4;

/// The angle of a point once carried into the ellipse plane.
pub uninterp spec fn angle_of(mat_i: Mat4, p: Point3) -> Scalar1;

/// An angle one full turn forward.
pub uninterp spec fn turn_fwd(a: Scalar1) -> Scalar1;

/// An angle one full turn backward.
pub uninterp spec fn turn_back(a: Scalar1) -> Scalar1;

/// The partial-order comparison of two scalars.
pub uninterp spec fn le_of(a: Scalar1, b: Scalar1) -> bool;

/// How many samples an angular span asks for at the given density per turn.
pub uninterp spec fn steps_of(u_ang: Scalar1, v_ang: Scalar1, per_turn: u32) -> u32;

/// The angle interpolated linearly at fraction `i` over `denom`.
pub uninterp spec fn lerp_of(u_ang: Scalar1, v_ang: Scalar1, i: u32, denom: u32) -> Scalar1;

/// The 3D point at the given angle of the unit circle, carried through the
/// ellipse-plane basis.
pub uninterp spec fn circle_pt(world_from_eplane: Mat4, ang: Scalar1) -> Point3;

/// The cross product of two directions.
pub uninterp spec fn cross_of(a: Point3, b: Point3) -> Point3;

/// Whether the triangulation engine returns at all on the given input.  Its
/// validation turns non-finite points and malformed edges into errors, but
/// the solver asserts internally and can abort the process on pathological
/// geometry that validation does not reject; this names the inputs on which
/// it returns normally (deterministic, a function of the input alone).
pub uninterp spec fn cdt_returns(pts: Seq<Point2>, edges: Seq<(usize, usize)>) -> bool;

/// Whether the triangulation engine accepts the given points and constraint
/// edges: its solver is deterministic, so acceptance is a function of the
/// input alone.
pub uninterp spec fn cdt_accepts(pts: Seq<Point2>, edges: Seq<(usize, usize)>) -> bool;

/// The triangles the engine returns on the inputs it accepts.
pub uninterp spec fn cdt_triangles(pts: Seq<Point2>, edges: Seq<(usize, usize)>) -> Seq<
    (usize, usize, usize),
>;

/// Relies on nalgebra-glm's identity, set_column, cross and vec3_to_vec4 to
/// assemble the rigid transform whose columns are x, z cross x, z and the
/// origin.
#[verifier::external_body]
pub(crate) fn make_rigid_transform(z_world: &Point3, x_world: &Point3, origin: &Point3) -> (r:
    Mat4)
    ensures
        r == rigid_of(*z_world, *x_world, *origin),
{
    let mut m: Mat4 = nalgebra_glm::identity();
    m = nalgebra_glm::set_column(&m, 0, &nalgebra_glm::vec3_to_vec4(x_world));
    let y_world = nalgebra_glm::cross(z_world, x_world);
    m = nalgebra_glm::set_column(&m, 1, &nalgebra_glm::vec3_to_vec4(&y_world));
    m = nalgebra_glm::set_column(&m, 2, &nalgebra_glm::vec3_to_vec4(z_world));
    let one_s: Scalar1 = nalgebra_glm::vec1(1u8.into());
    let o = nalgebra_glm::DVec4::new(origin.x, origin.y, origin.z, one_s.x);
    nalgebra_glm::set_column(&m, 3, &o)
}

/// Relies on nalgebra-glm's identity, set_column and vec3_to_vec4 to assemble
/// the affine transform with the given x, y, z columns and origin.
#[verifier::external_body]
pub(crate) fn make_affine_transform(
    z_world: &Point3,
    x_world: &Point3,
    y_world: &Point3,
    origin: &Point3,
) -> (r: Mat4)
    ensures
        r == affine_of(*z_world, *x_world, *y_world, *origin),
{
    let mut m: Mat4 = nalgebra_glm::identity();
    m = nalgebra_glm::set_column(&m, 0, &nalgebra_glm::vec3_to_vec4(x_world));
    m = nalgebra_glm::set_column(&m, 1, &nalgebra_glm::vec3_to_vec4(y_world));
    m = nalgebra_glm::set_column(&m, 2, &nalgebra_glm::vec3_to_vec4(z_world));
    let one_s: Scalar1 = nalgebra_glm::vec1(1u8.into());
    let o = nalgebra_glm::DVec4::new(origin.x, origin.y, origin.z, one_s.x);
    nalgebra_glm::set_column(&m, 3, &o)
}

/// Relies on nalgebra's try_inverse: None exactly when the matrix is
/// singular.
#[verifier::external_body]
pub(crate) fn mat_inverse(m: &Mat4) -> (r: Option<Mat4>)
    ensures
        r is Some <==> invertible(*m),
        r matches Some(i) ==> i == inverse_of(*m),
{
    (*m).try_inverse()
}

/// Relies on nalgebra's matrix-vector product and nalgebra-glm's
/// vec4_to_vec2: applies the inverse transform and drops the depth
/// coordinate, a function of the arguments alone.
#[verifier::external_body]
pub(crate) fn lower_plane(mat_i: &Mat4, p: &Point3) -> (q: Point2)
    ensures
        q == plane_project(*mat_i, *p),
{
    let one_s: Scalar1 = nalgebra_glm::vec1(1u8.into());
    let h = *mat_i * nalgebra_glm::DVec4::new(p.x, p.y, p.z, one_s.x);
    nalgebra_glm::vec4_to_vec2(&h)
}

/// Relies on nalgebra's matrix-vector product and f64's exp: applies the
/// inverse transform, then scales x and y by the logistic function of the
/// depth over the radius, a function of the arguments alone.
#[verifier::external_body]
pub(crate) fn lower_cylinder(mat_i: &Mat4, radius: &Scalar1, p: &Point3) -> (q: Point2)
    ensures
        q == cylinder_project(*mat_i, *radius, *p),
{
    let one_s: Scalar1 = nalgebra_glm::vec1(1u8.into());
    let h = *mat_i * nalgebra_glm::DVec4::new(p.x, p.y, p.z, one_s.x);
    let den = (-(h.z) / radius.x).exp() + one_s.x;
    nalgebra_glm::vec2(h.x / den, h.y / den)
}

/// Relies on nalgebra-glm's dot and normalize: the unit vector from the
/// point's projection onto the axis towards the point, a function of the
/// arguments alone.  The outward choice is deliberate and follows the stated
/// surface-parameterization design; together with the family's
/// orientation-sign flag it fixes the emitted winding.
#[verifier::external_body]
pub(crate) fn cylinder_normal(location: &Point3, axis: &Point3, p: &Point3) -> (n: Point3)
    ensures
        n == cylinder_normal_at(*location, *axis, *p),
{
    let proj = nalgebra_glm::dot(&(*p - *location), axis);
    let nearest = *location + *axis * proj;
    nalgebra_glm::normalize(&(*p - nearest))
}

/// Relies on nalgebra's matrix-vector product and f64's atan2: the angle of
/// the point once carried into the ellipse plane.
#[verifier::external_body]
pub(crate) fn eplane_angle(mat_i: &Mat4, p: &Point3) -> (a: Scalar1)
    ensures
        a == angle_of(*mat_i, *p),
{
    let one_s: Scalar1 = nalgebra_glm::vec1(1u8.into());
    let h = *mat_i * nalgebra_glm::DVec4::new(p.x, p.y, p.z, one_s.x);
    nalgebra_glm::vec1(h.y.atan2(h.x))
}

/// Relies on nalgebra-glm's two_pi: the angle one full turn forward.
#[verifier::external_body]
pub(crate) fn add_full_turn(a: &Scalar1) -> (r: Scalar1)
    ensures
        r == turn_fwd(*a),
{
    let t: Scalar1 = nalgebra_glm::vec1(nalgebra_glm::two_pi());
    nalgebra_glm::vec1(a.x + t.x)
}

/// Relies on nalgebra-glm's two_pi: the angle one full turn backward.
#[verifier::external_body]
pub(crate) fn sub_full_turn(a: &Scalar1) -> (r: Scalar1)
    ensures
        r == turn_back(*a),
{
    let t: Scalar1 = nalgebra_glm::vec1(nalgebra_glm::two_pi());
    nalgebra_glm::vec1(a.x - t.x)
}

/// Relies on f64's partial-order comparison of the two scalars.
#[verifier::external_body]
pub(crate) fn scalar_le(a: &Scalar1, b: &Scalar1) -> (r: bool)
    ensures
        r == le_of(*a, *b),
{
    a.x <= b.x
}

/// Relies on f64's abs and round and nalgebra-glm's two_pi: how many samples
/// the angular span asks for at the given density per full turn, saturating
/// into u32.
#[verifier::external_body]
pub(crate) fn arc_steps(u_ang: &Scalar1, v_ang: &Scalar1, per_turn: u32) -> (n: u32)
    ensures
        n == steps_of(*u_ang, *v_ang, per_turn),
{
    let t: Scalar1 = nalgebra_glm::vec1(nalgebra_glm::two_pi());
    let k: Scalar1 = nalgebra_glm::vec1(per_turn.into());
    ((u_ang.x - v_ang.x).abs() / t.x * k.x).round() as u32
}

/// Relies on nalgebra-glm's mix_scalar: the angle interpolated linearly at
/// fraction i over denom.
#[verifier::external_body]
pub(crate) fn lerp_angle(u_ang: &Scalar1, v_ang: &Scalar1, i: u32, denom: u32) -> (r: Scalar1)
    ensures
        r == lerp_of(*u_ang, *v_ang, i, denom),
{
    let fi: Scalar1 = nalgebra_glm::vec1(i.into());
    let fd: Scalar1 = nalgebra_glm::vec1(denom.into());
    nalgebra_glm::vec1(nalgebra_glm::mix_scalar(u_ang.x, v_ang.x, fi.x / fd.x))
}

/// Relies on f64's cos and sin, nalgebra's matrix-vector product and
/// nalgebra-glm's vec4_to_vec3: carries the point at the given angle of the
/// unit circle back through the ellipse-plane basis into 3D.
#[verifier::external_body]
pub(crate) fn eplane_point(world_from_eplane: &Mat4, ang: &Scalar1) -> (r: Point3)
    ensures
        r == circle_pt(*world_from_eplane, *ang),
{
    let one_s: Scalar1 = nalgebra_glm::vec1(1u8.into());
    let zero_s: Scalar1 = nalgebra_glm::vec1(0u8.into());
    let h = *world_from_eplane
        * nalgebra_glm::DVec4::new(ang.x.cos(), ang.x.sin(), zero_s.x, one_s.x);
    nalgebra_glm::vec4_to_vec3(&h)
}

/// Relies on nalgebra-glm's dot, distance2 and epsilon: whether re-projecting
/// each endpoint's offset along the direction reproduces that endpoint within
/// machine epsilon.
#[verifier::external_body]
pub(crate) fn line_consistent(u: &Point3, v: &Point3, pnt: &Point3, dir: &Point3) -> (r: bool)
    ensures
        r == line_fits(*u, *v, *pnt, *dir),
{
    let start = nalgebra_glm::dot(&(*u - *pnt), dir);
    let end = nalgebra_glm::dot(&(*v - *pnt), dir);
    let u2 = *pnt + *dir * start;
    let v2 = *pnt + *dir * end;
    let eps: Scalar1 = nalgebra_glm::vec1(nalgebra_glm::epsilon());
    nalgebra_glm::distance2(&u2, u) < eps.x && nalgebra_glm::distance2(&v2, v) < eps.x
}

/// Relies on nalgebra's scalar-vector product: the direction scaled by the
/// magnitude.
#[verifier::external_body]
pub(crate) fn scale_dir(d: &Point3, m: &Scalar1) -> (r: Point3)
    ensures
        r == scaled_dir(*d, *m),
{
    *d * m.x
}

/// Relies on nalgebra-glm's cross product of the two directions.
#[verifier::external_body]
pub(crate) fn cross_dir(a: &Point3, b: &Point3) -> (r: Point3)
    ensures
        r == cross_of(*a, *b),
{
    nalgebra_glm::cross(a, b)
}

/// Relies on nalgebra-glm's vec3: the zero vector, the placeholder color.
/// Each of its coordinates narrows to single-precision zero.
#[verifier::external_body]
pub(crate) fn zero_vec3() -> (r: Point3)
    ensures
        f32_bits(r) == (0u32, 0u32, 0u32),
{
    let z: Scalar1 = nalgebra_glm::vec1(0u8.into());
    nalgebra_glm::vec3(z.x, z.x, z.x)
}

/// Relies on nalgebra-glm's convert_unchecked: narrows each coordinate to
/// single precision and takes its bit pattern, a function of the value alone.
#[verifier::external_body]
pub(crate) fn pos_bits(p: &Point3) -> (r: (u32, u32, u32))
    ensures
        r == f32_bits(*p),
{
    let q: nalgebra_glm::Vec3 = nalgebra_glm::convert_unchecked(*p);
    (q.x.to_bits(), q.y.to_bits(), q.z.to_bits())
}

/// Relies on cdt's triangulate_with_edges.  The solver is deterministic, so
/// acceptance and the returned triples are functions of the input alone; on
/// success every triple indexes into the given point list (cdt keeps a remap
/// table back to the caller's indices).  The engine can abort the process on
/// pathological geometry, so the precondition admits only the inputs on
/// which it returns; the callers carry that assumption up as their own
/// precondition, since no runtime test of it exists.
#[verifier::external_body]
pub(crate) fn run_cdt(
    pts: &Vec<Point2>,
    edges: &Vec<(usize, usize)>,
) -> (r: Result<Vec<(usize, usize, usize)>, cdt::Error>)
    requires
        cdt_returns(pts@, edges@),
    ensures
        r is Ok ==> cdt_returns(pts@, edges@),
        r is Ok <==> cdt_accepts(pts@, edges@),
        r matches Ok(tris) ==> tris@ == cdt_triangles(pts@, edges@),
        r matches Ok(tris) ==> forall|k: int|
            0 <= k < tris@.len() ==> (#[trigger] tris@[k]).0 < pts@.len()
                && tris@[k].1 < pts@.len() && tris@[k].2 < pts@.len(),
{
    let fp = pts.iter().map(|p| (p.x, p.y)).collect::<Vec<_>>();
    cdt::triangulate_with_edges(&fp, edges.as_slice())
}

} // verus!
