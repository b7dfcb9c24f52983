use wirecube::fx::{Fx, FX_SCALE};
use wirecube::renderer::{Renderer, Trig, FRAC_PI_2_BITS};
use wirecube::vec::Vec4;

fn fx_of_f64(v: f64) -> Fx {
    Fx { bits: (v * FX_SCALE as f64).round() as i64 }
}

fn fx_to_f64(v: Fx) -> f64 {
    v.bits as f64 / FX_SCALE as f64
}

fn trig_of(rx: f64, ry: f64, rz: f64) -> Trig {
    Trig {
        cos_x: fx_of_f64(rx.cos()),
        sin_x: fx_of_f64(rx.sin()),
        cos_y: fx_of_f64(ry.cos()),
        sin_y: fx_of_f64(ry.sin()),
        cos_z: fx_of_f64(rz.cos()),
        sin_z: fx_of_f64(rz.sin()),
    }
}

/// The floating-point reference pipeline, for cross-checking: rotate,
/// translate by the camera distance, project, divide, viewport-map.
fn reference_project(
    p: (f64, f64, f64),
    t: (f64, f64, f64),
    width: f64,
    height: f64,
    fov: f64,
    z_near: f64,
    z_far: f64,
) -> (f64, f64) {
    let (rx, ry, rz) = t;
    let (x0, y0, z0) = p;
    // Same matrix shapes as the library's factories.
    let (x1, y1, z1) = (
        rx.cos() * x0 + rx.sin() * z0,
        y0,
        -rx.sin() * x0 + rx.cos() * z0,
    );
    let (x2, y2, z2) = (
        x1,
        ry.cos() * y1 - ry.sin() * z1,
        ry.sin() * y1 + ry.cos() * z1,
    );
    let (x3, y3, z3) = (
        rz.cos() * x2 - rz.sin() * y2,
        rz.sin() * x2 + rz.cos() * y2,
        z2,
    );
    let z4 = z3 + 3.0;
    let a = height / width;
    let f = 1.0 / (fov * 0.5).tan();
    let q1 = z_far / (z_far - z_near);
    let q2 = (-z_far * z_near) / (z_far - z_near);
    let xp = a * f * x3;
    let yp = f * y3;
    let _zp = q1 * z4 + q2;
    let wp = z4;
    let xq = xp / wp;
    let yq = yp / wp;
    (xq * 0.5 * width + 0.5 * width, yq * 0.5 * height + 0.5 * height)
}

#[test]
fn origin_projects_to_viewport_center() {
    let r = Renderer::new(480, 360);
    let p = Vec4::from_point(0, 0, 0);
    let (sx, sy) = r.transform_2d(&p, &Trig::identity()).unwrap();
    // Exactly (240, 180): no tolerance needed.
    assert_eq!(sx.bits, 240 * FX_SCALE);
    assert_eq!(sy.bits, 180 * FX_SCALE);
}

#[test]
fn defaults_match_construction_parameters() {
    let r = Renderer::new(480, 360);
    assert_eq!(r.fov().bits, FRAC_PI_2_BITS);
    assert!((fx_to_f64(r.z_near()) - 0.1).abs() < 1e-9);
    assert_eq!(r.z_far().bits, 1000 * FX_SCALE);
}

#[test]
fn projection_matches_floating_point_reference() {
    let r = Renderer::new(480, 360);
    let angles = (0.4, -0.9, 1.7);
    let t = trig_of(angles.0, angles.1, angles.2);
    for p in [(0, 0, 0), (1, 0, 0), (1, 1, 0), (0, 1, 1), (1, 1, 1)] {
        let v = Vec4::from_point(p.0, p.1, p.2);
        let (sx, sy) = r.transform_2d(&v, &t).unwrap();
        let (ex, ey) = reference_project(
            (p.0 as f64, p.1 as f64, p.2 as f64),
            angles,
            480.0,
            360.0,
            std::f64::consts::FRAC_PI_2,
            0.1,
            1000.0,
        );
        assert!((fx_to_f64(sx) - ex).abs() < 1e-5, "x for {:?}", p);
        assert!((fx_to_f64(sy) - ey).abs() < 1e-5, "y for {:?}", p);
    }
}

#[test]
fn zero_homogeneous_w_is_rejected() {
    // With zero rotation the camera translation puts z = -3 at w = 0.
    let r = Renderer::new(480, 360);
    let v = Vec4::from_point(0, 0, -3);
    assert!(r.transform_2d(&v, &Trig::identity()).is_none());
}

#[test]
fn changing_fov_changes_the_projection() {
    let mut r = Renderer::new(480, 360);
    let v = Vec4::from_point(1, 1, 0);
    let t = Trig::identity();
    let before = r.transform_2d(&v, &t).unwrap();
    // fov = 2*atan(1/2): focal term 2.
    let fov = 2.0f64 * (0.5f64).atan();
    assert!(r.set_fov_checked(fx_of_f64(fov), Fx::from_int(2)));
    let after = r.transform_2d(&v, &t).unwrap();
    assert_eq!(r.fov().bits, fx_of_f64(fov).bits);
    assert_ne!(before.0.bits, after.0.bits);
    assert_ne!(before.1.bits, after.1.bits);
    // A doubled focal term doubles the centered offset exactly.
    assert_eq!(after.0.bits - 240 * FX_SCALE, 2 * (before.0.bits - 240 * FX_SCALE));
}

#[test]
fn changing_z_near_changes_stored_state_and_matrix() {
    let mut r = Renderer::new(480, 360);
    let m_before = r.perspective;
    assert!(r.set_z_near_checked(fx_of_f64(0.5)));
    assert_eq!(r.z_near().bits, fx_of_f64(0.5).bits);
    assert_ne!(r.perspective.r2.c2.bits, m_before.r2.c2.bits);
    assert_ne!(r.perspective.r2.c3.bits, m_before.r2.c3.bits);
}

#[test]
fn changing_z_far_changes_stored_state_and_matrix() {
    let mut r = Renderer::new(480, 360);
    let m_before = r.perspective;
    assert!(r.set_z_far_checked(Fx::from_int(10)));
    assert_eq!(r.z_far().bits, 10 * FX_SCALE);
    assert_ne!(r.perspective.r2.c2.bits, m_before.r2.c2.bits);
}

#[test]
fn invalid_depths_are_rejected_and_state_kept() {
    let mut r = Renderer::new(480, 360);
    let z_near = r.z_near();
    // A near depth of zero, or one past the far depth, is refused.
    assert!(!r.set_z_near_checked(Fx::from_int(0)));
    assert!(!r.set_z_near_checked(Fx::from_int(2000)));
    assert_eq!(r.z_near().bits, z_near.bits);
    // A far depth below the near depth is refused.
    assert!(!r.set_z_far_checked(Fx { bits: 1 }));
    assert_eq!(r.z_far().bits, 1000 * FX_SCALE);
}
