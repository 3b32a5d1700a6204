use monet::math::decimal::to_decimal;
use monet::math::fixed::UNIT;

#[test]
fn whole_numbers_are_written_without_a_point() {
    assert_eq!(to_decimal(0), "0");
    assert_eq!(to_decimal(100 * UNIT), "100");
    assert_eq!(to_decimal(2970 * UNIT), "2970");
    assert_eq!(to_decimal(-7 * UNIT), "-7");
}

#[test]
fn fractions_are_written_without_trailing_zeros() {
    assert_eq!(to_decimal(25_500_000), "25.5");
    assert_eq!(to_decimal(100_000), "0.1");
    assert_eq!(to_decimal(10_000), "0.01");
    assert_eq!(to_decimal(1), "0.000001");
    assert_eq!(to_decimal(-1_250_000), "-1.25");
    assert_eq!(to_decimal(3_141_592), "3.141592");
    assert_eq!(to_decimal(1_000_001), "1.000001");
}

#[test]
fn the_extremes_are_written_in_full() {
    assert_eq!(to_decimal(i64::MAX), "9223372036854.775807");
    assert_eq!(to_decimal(i64::MIN), "-9223372036854.775808");
}
