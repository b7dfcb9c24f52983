use wirecube::fx::{Fx, FX_SCALE};
use wirecube::mat::{Mat4, Row4};
use wirecube::transformation::{
    new_perspective, new_rotation_x, new_rotation_y, new_rotation_z, new_translation,
};
use wirecube::vec::Vec4;

fn fx(n: i32) -> Fx {
    Fx::from_int(n)
}

/// Quantizes a float to the library's fixed-point scale.
fn fx_of_f64(v: f64) -> Fx {
    Fx { bits: (v * FX_SCALE as f64).round() as i64 }
}

fn fx_to_f64(v: Fx) -> f64 {
    v.bits as f64 / FX_SCALE as f64
}

#[test]
fn from_int_scales_exactly() {
    assert_eq!(fx(0).bits, 0);
    assert_eq!(fx(1).bits, FX_SCALE);
    assert_eq!(fx(-3).bits, -3 * FX_SCALE);
    assert_eq!(fx(1000).bits, 1000 * FX_SCALE);
}

#[test]
fn fixed_point_ops_are_exact_on_integers() {
    assert_eq!(fx(3).add(fx(4)).bits, 7 * FX_SCALE);
    assert_eq!(fx(3).sub(fx(4)).bits, -FX_SCALE);
    assert_eq!(fx(3).mul(fx(-2)).bits, -6 * FX_SCALE);
    assert_eq!(fx(7).div(fx(2)).bits, 3 * FX_SCALE + FX_SCALE / 2);
    assert_eq!(fx(5).neg().bits, -5 * FX_SCALE);
}

#[test]
fn multiplication_truncates_toward_zero() {
    // 3 * 5 tiny units: 15 / 2^32 truncates to zero from both sides.
    let a = Fx { bits: 3 };
    let b = Fx { bits: 5 };
    assert_eq!(a.mul(b).bits, 0);
    assert_eq!(a.neg().mul(b).bits, 0);
}

#[test]
fn checked_ops_report_overflow() {
    let big = Fx { bits: i64::MAX };
    assert!(big.checked_mul(fx(2)).is_none());
    assert!(big.checked_add(Fx { bits: 1 }).is_none());
    assert!(fx(1).checked_div(fx(0)).is_none());
    assert_eq!(fx(6).checked_div(fx(3)).unwrap().bits, 2 * FX_SCALE);
    assert_eq!(fx(2).checked_mul(fx(3)).unwrap().bits, 6 * FX_SCALE);
    assert_eq!(fx(2).checked_add(fx(3)).unwrap().bits, 5 * FX_SCALE);
}

#[test]
fn matrix_vector_product_matches_hand_computation() {
    // Row-dot-column against a hand-computed fixture.
    let m = Mat4 {
        r0: Row4 { c0: fx(1), c1: fx(2), c2: fx(0), c3: fx(0) },
        r1: Row4 { c0: fx(0), c1: fx(1), c2: fx(0), c3: fx(5) },
        r2: Row4 { c0: fx(-1), c1: fx(0), c2: fx(2), c3: fx(0) },
        r3: Row4 { c0: fx(0), c1: fx(0), c2: fx(0), c3: fx(1) },
    };
    let v = Vec4::new(fx(3), fx(4), fx(5), fx(1));
    let r = m.mul(&v);
    assert_eq!(r.x.bits, 11 * FX_SCALE); // 1*3 + 2*4
    assert_eq!(r.y.bits, 9 * FX_SCALE); // 4 + 5*1
    assert_eq!(r.z.bits, 7 * FX_SCALE); // -3 + 2*5
    assert_eq!(r.w.bits, FX_SCALE);
}

#[test]
fn translation_moves_points() {
    let m = new_translation(fx(1), fx(2), fx(3));
    let r = m.mul(&Vec4::from_point(1, 1, 1));
    assert_eq!(r.x.bits, 2 * FX_SCALE);
    assert_eq!(r.y.bits, 3 * FX_SCALE);
    assert_eq!(r.z.bits, 4 * FX_SCALE);
    assert_eq!(r.w.bits, FX_SCALE);
}

#[test]
fn rotation_by_zero_is_identity() {
    let v = Vec4::from_point(3, -2, 7);
    for m in [
        new_rotation_x(Fx::one(), Fx::zero()),
        new_rotation_y(Fx::one(), Fx::zero()),
        new_rotation_z(Fx::one(), Fx::zero()),
    ] {
        let r = m.mul(&v);
        assert_eq!(r.x.bits, v.x.bits);
        assert_eq!(r.y.bits, v.y.bits);
        assert_eq!(r.z.bits, v.z.bits);
        assert_eq!(r.w.bits, v.w.bits);
    }
}

#[test]
fn rotation_round_trip_returns_the_point() {
    let angle: f64 = 0.7;
    let c = fx_of_f64(angle.cos());
    let s = fx_of_f64(angle.sin());
    let sn = s.neg();
    let v = Vec4::from_point(1, 2, 3);
    for (fwd, bwd) in [
        (new_rotation_x(c, s), new_rotation_x(c, sn)),
        (new_rotation_y(c, s), new_rotation_y(c, sn)),
        (new_rotation_z(c, s), new_rotation_z(c, sn)),
    ] {
        let r = bwd.mul(&fwd.mul(&v));
        // Within 128 units of 2^-32, i.e. well under 1e-7 of a unit.
        assert!((r.x.bits - v.x.bits).abs() <= 128);
        assert!((r.y.bits - v.y.bits).abs() <= 128);
        assert!((r.z.bits - v.z.bits).abs() <= 128);
        assert_eq!(r.w.bits, v.w.bits);
    }
}

#[test]
fn rotation_matches_floating_point_reference() {
    let angle: f64 = 1.1;
    let m = new_rotation_z(fx_of_f64(angle.cos()), fx_of_f64(angle.sin()));
    let r = m.mul(&Vec4::from_point(2, 1, 0));
    let expect_x = angle.cos() * 2.0 - angle.sin() * 1.0;
    let expect_y = angle.sin() * 2.0 + angle.cos() * 1.0;
    assert!((fx_to_f64(r.x) - expect_x).abs() < 1e-8);
    assert!((fx_to_f64(r.y) - expect_y).abs() < 1e-8);
}

#[test]
fn perspective_entries_match_their_formulas() {
    // width 480, height 360, focal 1 (fov = pi/2), zNear 0.1, zFar 1000.
    let w = fx(480);
    let h = fx(360);
    let z_near = fx_of_f64(0.1);
    let z_far = fx(1000);
    let m = new_perspective(w, h, Fx::one(), z_near, z_far);
    // aspect * focal = 360/480 = 0.75 exactly.
    assert_eq!(m.r0.c0.bits, 3 * (FX_SCALE / 4));
    assert_eq!(m.r1.c1.bits, FX_SCALE);
    // q1 = zFar / (zFar - zNear), q2 = -zFar * zNear / (zFar - zNear).
    assert!((fx_to_f64(m.r2.c2) - 1000.0 / (1000.0 - 0.1)).abs() < 1e-7);
    assert!((fx_to_f64(m.r2.c3) - (-1000.0 * 0.1) / (1000.0 - 0.1)).abs() < 1e-7);
    // The fourth row (0, 0, 1, 0) copies z into w.
    assert_eq!(m.r3.c0.bits, 0);
    assert_eq!(m.r3.c1.bits, 0);
    assert_eq!(m.r3.c2.bits, FX_SCALE);
    assert_eq!(m.r3.c3.bits, 0);
}
