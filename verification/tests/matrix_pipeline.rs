//! The matrix pipeline on concrete values: constructors, composition,
//! the perspective projection and the view matrix.

use celestial::fx::{fx_div, fx_mul, isqrt, sat_add, FX_ONE};
use celestial::shapes::map_range;
use celestial::shapes::matrices::{
    identity, mat4_mul, perspective_matrix, rotate, scale, translate, view_matrix, Angle, Mat4,
    Vec3,
};

fn assert_mat(m: &Mat4, rows: [[i64; 4]; 4]) {
    assert_eq!(
        [
            [m.m00, m.m01, m.m02, m.m03],
            [m.m10, m.m11, m.m12, m.m13],
            [m.m20, m.m21, m.m22, m.m23],
            [m.m30, m.m31, m.m32, m.m33],
        ],
        rows
    );
}

#[test]
fn fixed_point_products_truncate_toward_zero() {
    assert_eq!(fx_mul(1, 999_999), 0);
    assert_eq!(fx_mul(-1, 999_999), 0);
    assert_eq!(fx_mul(1_500_000, 2_000_000), 3_000_000);
    assert_eq!(fx_mul(-1_500_000, 2_000_000), -3_000_000);
    assert_eq!(fx_div(1_000_000, 3_000_000), 333_333);
    assert_eq!(fx_div(-1_000_000, 3_000_000), -333_333);
}

#[test]
fn saturating_addition_stops_at_the_rails() {
    assert_eq!(sat_add(5, 7), 12);
    assert_eq!(sat_add(i64::MAX, 1), i64::MAX);
    assert_eq!(sat_add(i64::MIN, -1), i64::MIN);
}

#[test]
fn integer_square_roots() {
    assert_eq!(isqrt(0), 0);
    assert_eq!(isqrt(3), 1);
    assert_eq!(isqrt(4), 2);
    assert_eq!(isqrt(999_999), 999);
    assert_eq!(isqrt(1_000_000_000_000), 1_000_000);
}

#[test]
fn identity_translate_scale_entries() {
    let one = FX_ONE;
    assert_mat(&identity(), [
        [one, 0, 0, 0],
        [0, one, 0, 0],
        [0, 0, one, 0],
        [0, 0, 0, one],
    ]);
    assert_mat(&translate(1, 2, 3), [
        [one, 0, 0, 0],
        [0, one, 0, 0],
        [0, 0, one, 0],
        [1, 2, 3, one],
    ]);
    assert_mat(&scale(250_000), [
        [250_000, 0, 0, 0],
        [0, 250_000, 0, 0],
        [0, 0, 250_000, 0],
        [0, 0, 0, one],
    ]);
}

#[test]
fn rotation_by_zero_is_the_identity() {
    let z = Angle::zero();
    assert_eq!(rotate(&z, &z, &z), identity());
}

#[test]
fn rotation_about_x_has_the_familiar_block() {
    let one = FX_ONE;
    let quarter = Angle::new(one, 0);
    let z = Angle::zero();
    assert_mat(&rotate(&quarter, &z, &z), [
        [one, 0, 0, 0],
        [0, 0, -one, 0],
        [0, one, 0, 0],
        [0, 0, 0, one],
    ]);
}

#[test]
fn rotating_there_and_back_is_the_identity() {
    // A quarter turn, and a pythagorean angle whose sine and cosine
    // are exact in fixed point: (0.6, 0.8).
    let z = Angle::zero();
    for (s, c) in [(FX_ONE, 0), (600_000, 800_000)] {
        let fwd = rotate(&Angle::new(s, c), &z, &z);
        let back = rotate(&Angle::new(-s, c), &z, &z);
        assert_eq!(mat4_mul(&fwd, &back), identity());
    }
}

#[test]
fn translations_compose_by_addition() {
    let a = translate(100, 200, -300);
    let b = translate(5, -6, 7);
    assert_eq!(mat4_mul(&a, &b), translate(105, 194, -293));
}

#[test]
fn perspective_matrix_for_a_square_viewport() {
    let m = perspective_matrix(400, 400);
    assert_mat(&m, [
        [1_732_051, 0, 0, 0],
        [0, 1_732_051, 0, 0],
        [0, 0, 1_000_195, FX_ONE],
        [0, 0, -200_019, 0],
    ]);
}

#[test]
fn perspective_matrix_follows_height_over_width() {
    // Aspect 2:1 doubles the x scaling against a square viewport.
    let m = perspective_matrix(200, 400);
    assert_eq!(m.m00, 2 * 1_732_051);
    assert_eq!(m.m11, 1_732_051);
}

#[test]
fn perspective_sends_near_to_minus_one_and_far_to_plus_one() {
    // The depth row in exact rational arithmetic: the numerator
    // z * (far + near) - 2 * far * near over the denominator
    // z * (far - near) is -1 at the near plane and +1 at the far plane.
    for (near, far) in [(100_000i64, 1_024_000_000i64), (1, 2), (250_000, 4_000_000)] {
        let num_at = |z: i64| z * (far + near) - 2 * far * near;
        assert_eq!(num_at(near), -(near * (far - near)));
        assert_eq!(num_at(far), far * (far - near));
    }
    // And the fixed-point matrix reproduces it to within truncation:
    // at the near plane the transformed depth is minus the depth.
    let m = perspective_matrix(400, 400);
    let near = 100_000;
    let clip_z = fx_mul(near, m.m22) + m.m32;
    assert!((clip_z - -near).abs() <= 1);
}

#[test]
fn map_range_hits_both_endpoints_exactly() {
    assert_eq!(map_range((0, 240_000_000), (1_500_000, -1_500_000), 0), 1_500_000);
    assert_eq!(map_range((0, 240_000_000), (1_500_000, -1_500_000), 240_000_000), -1_500_000);
    assert_eq!(map_range((0, 240_000_000), (2_500_000, -1_000_000), 240_000_000), -1_000_000);
}

#[test]
fn view_matrix_of_the_stock_camera() {
    let one = FX_ONE;
    let position = Vec3::new(-2 * one, one, one);
    let direction = Vec3::new(0, 0, one);
    let up = Vec3::new(0, one, 0);
    let m = view_matrix(&position, &direction, &up);
    assert_mat(&m, [
        [one, 0, 0, 0],
        [0, one, 0, 0],
        [0, 0, one, 0],
        [2 * one, -one, -one, one],
    ]);
}

#[test]
fn view_matrix_normalizes_the_direction() {
    // A direction of length five along z normalizes to the unit z.
    let position = Vec3::new(0, 0, 0);
    let direction = Vec3::new(0, 0, 5 * FX_ONE);
    let up = Vec3::new(0, FX_ONE, 0);
    let m = view_matrix(&position, &direction, &up);
    assert_eq!((m.m02, m.m12, m.m22), (0, 0, FX_ONE));
}

#[test]
fn angles_add_by_the_addition_formulas() {
    let sixty = Angle::new(866_025, 500_000);
    let minus_sixty = sixty.neg();
    let sum = sixty.add(&minus_sixty);
    assert_eq!(sum.sin, 0);
    assert_eq!(sum.cos, 999_999);
    let thirty = Angle::new(500_000, 866_025);
    let ninety = thirty.add(&sixty);
    assert_eq!(ninety.sin, 999_999);
    assert_eq!(ninety.cos, 0);
}
