use doser_core::util::{div_round_nearest_i32, period_ms, period_us};

#[test]
fn ties_away_from_zero() {
    assert_eq!(div_round_nearest_i32(5, 2), 3);
    assert_eq!(div_round_nearest_i32(-5, 2), -3);
    assert_eq!(div_round_nearest_i32(7, 3), 2);
    assert_eq!(div_round_nearest_i32(8, 3), 3);
}

#[test]
fn handles_extremes_without_overflow() {
    assert_eq!(div_round_nearest_i32(i32::MAX, 2), (i32::MAX / 2) + 1);
    assert_eq!(div_round_nearest_i32(i32::MIN, 2), i32::MIN / 2);
}

#[test]
fn period_us_clamps_and_floors() {
    // hz=1 → 1s
    assert_eq!(period_us(1), 1_000_000);
    // hz=2 → 500_000µs
    assert_eq!(period_us(2), 500_000);
    // Very high hz floors to 1µs minimum
    assert_eq!(period_us(1_000_000), 1);
    assert_eq!(period_us(u32::MAX), 1);
}

#[test]
fn period_ms_minimum_and_resolution_note() {
    // hz=1 → 1000ms
    assert_eq!(period_ms(1), 1000);
    // hz=2 → 500ms
    assert_eq!(period_ms(2), 500);
    // hz>=1000 floors to 0ms but we cap to >=1ms
    assert_eq!(period_ms(1000), 1);
    assert_eq!(period_ms(10_000), 1);
    assert_eq!(period_ms(u32::MAX), 1);
}

#[test]
fn div_round_nearest_rounds_to_the_closest_quotient() {
    assert_eq!(div_round_nearest_i32(10, 4), 3); // 2.5 -> 3
    assert_eq!(div_round_nearest_i32(9, 4), 2); // 2.25 -> 2
    assert_eq!(div_round_nearest_i32(-9, 4), -2);
    assert_eq!(div_round_nearest_i32(-11, 4), -3); // -2.75 -> -3
    assert_eq!(div_round_nearest_i32(0, 7), 0);
    assert_eq!(div_round_nearest_i32(i32::MIN, 1), i32::MIN);
}

#[test]
fn period_us_for_common_rates() {
    assert_eq!(period_us(50), 20_000);
    assert_eq!(period_us(3), 333_333);
    assert_eq!(period_ms(3), 333);
    assert_eq!(period_ms(80), 12);
}
