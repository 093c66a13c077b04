use relax2d::fp::{add_fp, div_fp, mul_fp, sub_fp, SCALE};
use relax2d::vec2::{dist_fp, normal_from, Vec2};

#[test]
fn mul_rounds_toward_zero() {
    // 1.5 * 1.5 = 2.25 exactly.
    assert_eq!(mul_fp(1_500_000, 1_500_000), 2_250_000);
    // 0.000001 * 0.5 = 0.0000005, truncated toward zero from either sign.
    assert_eq!(mul_fp(1, 500_000), 0);
    assert_eq!(mul_fp(-1, 500_000), 0);
    // -1.5 * 1.5 = -2.25.
    assert_eq!(mul_fp(-1_500_000, 1_500_000), -2_250_000);
}

#[test]
fn mul_saturates_instead_of_overflowing() {
    assert_eq!(mul_fp(i64::MAX, 2 * SCALE), i64::MAX);
    assert_eq!(mul_fp(i64::MAX, -2 * SCALE), i64::MIN);
    assert_eq!(mul_fp(i64::MIN, 2 * SCALE), i64::MIN);
}

#[test]
fn add_and_sub_saturate() {
    assert_eq!(add_fp(i64::MAX, 1), i64::MAX);
    assert_eq!(sub_fp(i64::MIN, 1), i64::MIN);
    assert_eq!(add_fp(2 * SCALE, 3 * SCALE), 5 * SCALE);
}

#[test]
fn div_is_exact_scaled_quotient() {
    // 1 / 10000 = 0.0001.
    assert_eq!(div_fp(SCALE, 10_000 * SCALE), 100);
    // 3 / 2 = 1.5.
    assert_eq!(div_fp(3 * SCALE, 2 * SCALE), 1_500_000);
    // -3 / 2 = -1.5 (toward zero).
    assert_eq!(div_fp(-3 * SCALE, 2 * SCALE), -1_500_000);
}

#[test]
fn distance_of_three_four_five_triangle() {
    let a = Vec2 { x: 0, y: 0 };
    let b = Vec2 { x: 3 * SCALE, y: 4 * SCALE };
    assert_eq!(dist_fp(a, b), 5 * SCALE);
    assert_eq!(dist_fp(b, a), 5 * SCALE);
}

#[test]
fn distance_rounds_down() {
    // |(1, 1)| = sqrt(2) = 1.414213..., floor at the sixth decimal place.
    let a = Vec2 { x: 0, y: 0 };
    let b = Vec2 { x: SCALE, y: SCALE };
    assert_eq!(dist_fp(a, b), 1_414_213);
}

#[test]
fn normals_are_unit_length() {
    let d = Vec2 { x: -2 * SCALE, y: 0 };
    let n = normal_from(d, 2 * SCALE);
    assert_eq!(n, Vec2 { x: -SCALE, y: 0 });
}
