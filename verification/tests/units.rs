use pong::units::{
    divide, saturating, BALL_ACC, BALL_SPEED, PADDLE_MARGIN, PADDLE_SPEED, PADDLE_SPIN,
    UNITS_PER_PIXEL, WINDOW_HEIGHT, WINDOW_WIDTH,
};

#[test]
fn constants_are_in_thousandths_of_a_pixel() {
    assert_eq!(UNITS_PER_PIXEL, 1_000);
    assert_eq!(WINDOW_WIDTH, 640 * UNITS_PER_PIXEL);
    assert_eq!(WINDOW_HEIGHT, 480 * UNITS_PER_PIXEL);
    assert_eq!(PADDLE_SPEED, 8 * UNITS_PER_PIXEL);
    assert_eq!(BALL_SPEED, 5 * UNITS_PER_PIXEL);
    assert_eq!(PADDLE_MARGIN, 16 * UNITS_PER_PIXEL);
    assert_eq!(BALL_ACC * 20, UNITS_PER_PIXEL);
    assert_eq!(PADDLE_SPIN, 4);
}

#[test]
fn saturating_keeps_values_in_range() {
    assert_eq!(saturating(0), 0);
    assert_eq!(saturating(-5_050), -5_050);
    assert_eq!(saturating(i32::MAX as i64), i32::MAX);
    assert_eq!(saturating(i32::MIN as i64), i32::MIN);
}

#[test]
fn saturating_stops_at_the_ends() {
    assert_eq!(saturating(i32::MAX as i64 + 1), i32::MAX);
    assert_eq!(saturating(i32::MIN as i64 - 1), i32::MIN);
    assert_eq!(saturating(i64::MAX), i32::MAX);
    assert_eq!(saturating(i64::MIN), i32::MIN);
}

#[test]
fn divide_rounds_toward_zero() {
    assert_eq!(divide(7, 2), 3);
    assert_eq!(divide(-7, 2), -3);
    assert_eq!(divide(0, 5), 0);
    assert_eq!(divide(32_000_000, 96_000), 333);
    assert_eq!(divide(-32_000_000, 96_000), -333);
    assert_eq!(divide(i64::MIN, 1), i64::MIN);
}
