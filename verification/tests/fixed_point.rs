use bevy_4x_camera::fixed::{affine, blend, minus, negate, plus, saturate, times, ONE, TIME_CONSTANT};

#[test]
fn one_is_a_million() {
    assert_eq!(ONE, 1_000_000);
    assert_eq!(TIME_CONSTANT, 100_000);
}

#[test]
fn product_is_rescaled() {
    assert_eq!(times(2_000_000, 3_000_000), 6_000_000);
    assert_eq!(times(-1_500_000, 1_500_000), -2_250_000);
    assert_eq!(times(ONE, 123_456_789), 123_456_789);
    assert_eq!(times(0, i64::MAX), 0);
}

#[test]
fn product_rounds_toward_zero() {
    assert_eq!(times(3, 500_000), 1);
    assert_eq!(times(-3, 500_000), -1);
    assert_eq!(times(-1, 999_999), 0);
    assert_eq!(times(1, 999_999), 0);
}

#[test]
fn arithmetic_saturates() {
    assert_eq!(plus(i64::MAX, 1), i64::MAX);
    assert_eq!(plus(i64::MIN, -1), i64::MIN);
    assert_eq!(minus(i64::MIN, 1), i64::MIN);
    assert_eq!(minus(i64::MAX, -1), i64::MAX);
    assert_eq!(negate(i64::MIN), i64::MAX);
    assert_eq!(negate(5), -5);
    assert_eq!(times(i64::MAX, 2_000_000), i64::MAX);
    assert_eq!(times(i64::MIN, 2_000_000), i64::MIN);
    assert_eq!(times(i64::MIN, i64::MIN), i64::MAX);
    assert_eq!(saturate(i128::MAX), i64::MAX);
    assert_eq!(saturate(i128::MIN), i64::MIN);
    assert_eq!(saturate(-42), -42);
}

#[test]
fn affine_sensitivity_grows_with_height() {
    assert_eq!(affine(2_000_000, 0, 100_000), 100_000);
    assert_eq!(affine(2_000_000, 10_000_000, 100_000), 20_100_000);
    assert_eq!(affine(1_000_000, -3_000_000, 3_142), -2_996_858);
}

#[test]
fn blend_moves_by_the_fraction_of_the_frame_time() {
    assert_eq!(blend(0, 1_000_000, 16_000), 160_000);
    assert_eq!(blend(1_000_000, 0, 16_000), 840_000);
    assert_eq!(blend(0, 1_000_000, 0), 0);
    assert_eq!(blend(5, 5, 77_000), 5);
}

#[test]
fn blend_rounds_the_step_toward_zero() {
    assert_eq!(blend(10, 0, 16_000), 9);
    assert_eq!(blend(0, -7, 50_000), -3);
    assert_eq!(blend(0, 7, 50_000), 3);
    assert_eq!(blend(0, 6, 16_000), 0);
}

#[test]
fn blend_reaches_the_target_after_the_time_constant() {
    assert_eq!(blend(-3, 1_000_000, 100_000), 1_000_000);
}

#[test]
fn blend_overshoots_on_long_frames() {
    assert_eq!(blend(0, 1_000_000, 250_000), 2_500_000);
    assert_eq!(blend(1_000_000, 0, 250_000), -1_500_000);
}

#[test]
fn blend_saturates_at_the_ends() {
    assert_eq!(blend(i64::MIN, i64::MAX, u64::MAX), i64::MAX);
    assert_eq!(blend(i64::MAX, i64::MIN, u64::MAX), i64::MIN);
    assert_eq!(blend(i64::MIN, i64::MAX, 100_000), i64::MAX);
}
