use led_controller::fixed::{abs_i64, clamp_i64, div_trunc, isqrt_u64, wrap_mod};
use led_controller::trig::{cos_milli, sin_milli};
use led_controller::vec3::Vec3;

#[test]
fn dot_is_the_raw_product_sum() {
    let a = Vec3::new(1000, 2000, 3000);
    let b = Vec3::new(4000, -5000, 6000);
    assert_eq!(Vec3::dot(a, b), 1000 * 4000 - 2000 * 5000 + 3000 * 6000);
}

#[test]
fn magnitude_of_a_three_four_triangle() {
    let a = Vec3::new(3000, 4000, 0);
    assert_eq!(Vec3::mag_squared(a), 25000000);
    assert_eq!(Vec3::mag(a), 5000);
}

#[test]
fn magnitude_rounds_down() {
    let a = Vec3::new(1000, 1000, 1000);
    assert_eq!(Vec3::mag(a), 1732);
}

#[test]
fn norm_of_an_axis_vector_is_a_unit() {
    let n = Vec3::norm(Vec3::new(0, -10000, 0));
    assert_eq!((n.x, n.y, n.z), (0, -1000, 0));
}

#[test]
fn vector_sums_and_differences() {
    let a = Vec3::new(1, 2, 3);
    let b = Vec3::new(10, 20, 30);
    let s = Vec3::add(a, b);
    let d = Vec3::sub(b, a);
    assert_eq!((s.x, s.y, s.z), (11, 22, 33));
    assert_eq!((d.x, d.y, d.z), (9, 18, 27));
}

#[test]
fn scalar_multiplication_scales_back_to_milli() {
    let a = Vec3::new(2000, -3000, 500);
    let r = Vec3::mul_scalar(a, 1500);
    assert_eq!((r.x, r.y, r.z), (3000, -4500, 750));
}

#[test]
fn clamp_scalar_clamps_each_component() {
    let a = Vec3::new(-500, 50, 5000);
    let r = Vec3::clamp_scalar(a, 0, 1000);
    assert_eq!((r.x, r.y, r.z), (0, 50, 1000));
}

#[test]
fn integer_square_roots() {
    assert_eq!(isqrt_u64(0), 0);
    assert_eq!(isqrt_u64(1), 1);
    assert_eq!(isqrt_u64(24), 4);
    assert_eq!(isqrt_u64(25), 5);
    assert_eq!(isqrt_u64(u64::MAX), 4294967295);
}

#[test]
fn truncating_division_rounds_toward_zero() {
    assert_eq!(div_trunc(7, 2), 3);
    assert_eq!(div_trunc(-7, 2), -3);
    assert_eq!(div_trunc(0, 5), 0);
}

#[test]
fn wrap_mod_is_euclidean() {
    assert_eq!(wrap_mod(-10000, 360000), 350000);
    assert_eq!(wrap_mod(370000, 360000), 10000);
    assert_eq!(wrap_mod(-360000, 360000), 0);
}

#[test]
fn clamp_and_abs_helpers() {
    assert_eq!(clamp_i64(5, 0, 3), 3);
    assert_eq!(clamp_i64(-5, 0, 3), 0);
    assert_eq!(clamp_i64(2, 0, 3), 2);
    assert_eq!(abs_i64(-9), 9);
    assert_eq!(abs_i64(9), 9);
}

#[test]
fn sine_and_cosine_at_the_quarter_points() {
    assert_eq!(sin_milli(0), 0);
    assert_eq!(sin_milli(1571), 1000);
    assert_eq!(sin_milli(3142), 0);
    assert_eq!(sin_milli(4713), -1000);
    assert_eq!(cos_milli(0), 1000);
    assert_eq!(cos_milli(1571), 0);
}

#[test]
fn sine_stays_in_range_over_the_whole_turn() {
    let mut phi: i64 = 0;
    while phi <= 6284 {
        let s = sin_milli(phi);
        let c = cos_milli(phi);
        assert!(-1000 <= s && s <= 1000);
        assert!(-1000 <= c && c <= 1000);
        phi += 7;
    }
}
