use monet::math::vector2::{divide, root};
use monet::math::fixed::{floor_div, saturate, scale, UNIT};
use monet::math::Vec2;

#[test]
fn vectors_are_added_and_subtracted_by_coordinates() {
    let a = Vec2::vec2(3 * UNIT, -2 * UNIT);
    let b = Vec2::vec2(500_000, 4 * UNIT);
    assert_eq!(a + b, Vec2::vec2(3_500_000, 2 * UNIT));
    assert_eq!(a - b, Vec2::vec2(2_500_000, -6 * UNIT));
}

#[test]
fn sums_are_pinned_to_the_representable_range() {
    let a = Vec2::vec2(i64::MAX, i64::MIN);
    let b = Vec2::vec2(1, -1);
    assert_eq!(a + b, Vec2::vec2(i64::MAX, i64::MIN));
    assert_eq!(b - a, Vec2::vec2(i64::MIN + 2, i64::MAX));
    assert_eq!(Vec2::vec2(0, 0) - Vec2::vec2(i64::MIN, 0), Vec2::vec2(i64::MAX, 0));
}

#[test]
fn vectors_are_multiplied_and_divided_by_coordinates() {
    let a = Vec2::vec2(3 * UNIT, -2 * UNIT);
    let b = Vec2::vec2(500_000, 4 * UNIT);
    assert_eq!(a * b, Vec2::vec2(1_500_000, -8 * UNIT));
    assert_eq!(a / b, Vec2::vec2(6 * UNIT, -500_000));
    assert_eq!(
        Vec2::vec2(2970 * UNIT, 2100 * UNIT) / Vec2::vec2(2 * UNIT, UNIT),
        Vec2::vec2(1485 * UNIT, 2100 * UNIT)
    );
}

#[test]
fn quotients_are_rounded_down() {
    assert_eq!(divide(UNIT, 3 * UNIT), 333_333);
    assert_eq!(divide(-UNIT, 3 * UNIT), -333_334);
    assert_eq!(divide(UNIT, -3 * UNIT), -333_334);
    assert_eq!(divide(-UNIT, -3 * UNIT), 333_333);
    assert_eq!(divide(i64::MAX, 1), i64::MAX);
    assert_eq!(divide(i64::MIN, 1), i64::MIN);
    assert_eq!(divide(i64::MIN, -1), i64::MAX);
    assert_eq!(divide(0, i64::MIN), 0);
    assert_eq!(divide(7, i64::MIN), -1);
}

#[test]
fn a_vector_is_scaled_by_a_number() {
    let a = Vec2::vec2(3 * UNIT, -2 * UNIT);
    assert_eq!(a.mul(2_500_000), Vec2::vec2(7_500_000, -5 * UNIT));
    assert_eq!(a.mul(0), Vec2::vec2(0, 0));
    assert_eq!(Vec2::vec2(1, -1).mul(500_000), Vec2::vec2(0, -1));
    assert_eq!(Vec2::vec2(i64::MAX, i64::MIN).mul(2 * UNIT), Vec2::vec2(i64::MAX, i64::MIN));
}

#[test]
fn the_length_of_a_vector() {
    assert_eq!(Vec2::vec2(3 * UNIT, 4 * UNIT).abs(), 5 * 1_000_000);
    assert_eq!(Vec2::vec2(-3 * UNIT, 4 * UNIT).abs(), 5 * 1_000_000);
    assert_eq!(Vec2::vec2(0, 0).abs(), 0);
    assert_eq!(Vec2::vec2(UNIT, UNIT).abs(), 1_414_213);
    assert_eq!(Vec2::vec2(i64::MIN, 0).abs(), 9_223_372_036_854_775_808);
    assert_eq!(Vec2::vec2(i64::MIN, i64::MIN).abs(), 13_043_817_825_332_782_212);
}

#[test]
fn square_roots_are_rounded_down() {
    assert_eq!(root(0), 0);
    assert_eq!(root(1), 1);
    assert_eq!(root(3), 1);
    assert_eq!(root(4), 2);
    assert_eq!(root(99), 9);
    assert_eq!(root(100), 10);
    assert_eq!(root(u128::MAX), u64::MAX);
    assert_eq!(root((u64::MAX as u128) * (u64::MAX as u128) - 1), u64::MAX - 1);
}

#[test]
fn division_rounds_towards_minus_infinity() {
    assert_eq!(floor_div(7, 2), 3);
    assert_eq!(floor_div(-7, 2), -4);
    assert_eq!(floor_div(-8, 2), -4);
    assert_eq!(floor_div(-1, 1_000_000), -1);
    assert_eq!(floor_div(0, 5), 0);
    assert_eq!(floor_div(i128::MIN + 1, 1), i128::MIN + 1);
    assert_eq!(floor_div(i128::MAX, i128::MAX), 1);
    assert_eq!(floor_div(i128::MIN + 1, i128::MAX), -1);
}

#[test]
fn ratios_are_taken_without_loss() {
    assert_eq!(scale(5, 2770, 35), 395);
    assert_eq!(scale(-5, 2770, 35), -396);
    assert_eq!(scale(i64::MAX, i64::MAX, 1), (i64::MAX as i128) * (i64::MAX as i128));
    assert_eq!(scale(i64::MIN, i64::MIN, i64::MAX), 9_223_372_036_854_775_809);
}

#[test]
fn wide_numbers_are_pinned_to_sixty_four_bits() {
    assert_eq!(saturate(0), 0);
    assert_eq!(saturate(i64::MAX as i128), i64::MAX);
    assert_eq!(saturate(i64::MAX as i128 + 1), i64::MAX);
    assert_eq!(saturate(i64::MIN as i128), i64::MIN);
    assert_eq!(saturate(i64::MIN as i128 - 1), i64::MIN);
    assert_eq!(saturate(i128::MAX), i64::MAX);
    assert_eq!(saturate(i128::MIN), i64::MIN);
}
