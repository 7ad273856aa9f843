use nalgebra_glm::{vec1, vec2, vec3};

use step_mesh::surface::Surface;

#[test]
fn plane_lower_drops_depth() {
    let s = Surface::new_plane(
        &vec3(0.0, 0.0, 1.0),
        &vec3(1.0, 0.0, 0.0),
        &vec3(0.0, 0.0, 0.0),
    )
        .unwrap();
    let q = s.lower(&vec3(3.0, 4.0, 0.0));
    assert!((q.x - 3.0).abs() < 1e-12);
    assert!((q.y - 4.0).abs() < 1e-12);
}

#[test]
fn plane_normal_is_axis() {
    let axis = vec3(0.0, 0.0, 1.0);
    let s = Surface::new_plane(&axis, &vec3(1.0, 0.0, 0.0), &vec3(5.0, 6.0, 7.0)).unwrap();
    let n = s.normal(&vec3(5.0, 6.0, 7.0), &vec2(0.0, 0.0));
    assert_eq!(n, axis);
    assert_eq!(s.sign(), false);
}

fn unit_cylinder() -> Surface {
    Surface::new_cylinder(
        &vec3(0.0, 0.0, 1.0),
        &vec3(1.0, 0.0, 0.0),
        &vec3(0.0, 0.0, 0.0),
        &vec1(1.0),
    )
        .unwrap()
}

#[test]
fn cylinder_sign_is_pinned() {
    assert_eq!(unit_cylinder().sign(), true);
}

#[test]
fn cylinder_normal_points_outward() {
    let s = unit_cylinder();
    let n = s.normal(&vec3(1.0, 0.0, 5.0), &vec2(0.0, 0.0));
    assert!((n.x - 1.0).abs() < 1e-12);
    assert!(n.y.abs() < 1e-12);
    assert!(n.z.abs() < 1e-12);
}

#[test]
fn cylinder_seam_continuity() {
    // Two points on the same generator line, differing only in z, project to
    // 2D positions that vary continuously over the whole sweep: the logistic
    // blend has no seam.
    let s = unit_cylinder();
    let mut z = -20.0;
    let mut prev = s.lower(&vec3(1.0, 0.0, z));
    while z < 20.0 {
        z += 0.01;
        let q = s.lower(&vec3(1.0, 0.0, z));
        let dq = nalgebra_glm::distance(&q, &prev);
        assert!(dq < 0.01, "projection jumps at z = {}", z);
        prev = q;
    }
}

#[test]
fn cylinder_lower_blends_with_depth() {
    let s = unit_cylinder();
    // At z = 0 the logistic scale is exactly one half.
    let q0 = s.lower(&vec3(1.0, 0.0, 0.0));
    assert!((q0.x - 0.5).abs() < 1e-12);
    assert!(q0.y.abs() < 1e-12);
    // Far above, the scale approaches one; far below, zero.
    let hi = s.lower(&vec3(1.0, 0.0, 50.0));
    assert!((hi.x - 1.0).abs() < 1e-9);
    let lo = s.lower(&vec3(1.0, 0.0, -50.0));
    assert!(lo.x.abs() < 1e-9);
}

#[test]
fn degenerate_placement_is_rejected() {
    // A zero axis and reference direction give a singular transform.
    let r = Surface::new_plane(
        &vec3(0.0, 0.0, 0.0),
        &vec3(0.0, 0.0, 0.0),
        &vec3(0.0, 0.0, 0.0),
    );
    assert!(r.is_none());
}
