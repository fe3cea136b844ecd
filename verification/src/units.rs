//! The fixed-point scale, the constants of the game, and saturating
//! conversion back into the stored range.
//!
//! One unit is a thousandth of a pixel: fine enough that the smallest step
//! of the game, the twentieth of a pixel that the ball gains at a paddle, is
//! a whole number of units. Coordinates and speeds are stored as `i32`;
//! sums and products are formed in `i64`, where they cannot overflow, and a
//! result that leaves the stored range stops at its nearest end.

use vstd::prelude::*;

verus! {

/// Number of fixed-point units in one pixel.
pub const UNITS_PER_PIXEL: i32 = 1_000;

/// Width of the playing field (640 pixels).
pub const WINDOW_WIDTH: i32 = 640_000;

/// Height of the playing field (480 pixels).
pub const WINDOW_HEIGHT: i32 = 480_000;

/// Distance a paddle travels in one frame while a key is held (8 pixels).
pub const PADDLE_SPEED: i32 = 8_000;

/// Horizontal speed of the ball at the start of a match (5 pixels per frame).
pub const BALL_SPEED: i32 = 5_000;

/// Speed the ball gains on every paddle contact (0.05 pixels per frame).
pub const BALL_ACC: i32 = 50;

/// Vertical speed, in pixels per frame, that a contact at an offset of one
/// whole paddle height would add to the ball.
pub const PADDLE_SPIN: i32 = 4;

/// Gap between a paddle and the side of the window behind it (16 pixels).
pub const PADDLE_MARGIN: i32 = 16_000;

/// The value in the stored range that lies nearest to `v`.
pub open spec fn saturate(v: int) -> int {
    if v < i32::MIN {
        i32::MIN as int
    } else if v > i32::MAX {
        i32::MAX as int
    } else {
        v
    }
}

/// `1` for zero and the positive numbers, `-1` for the negative ones.
pub open spec fn sign(v: int) -> int {
    if v < 0 {
        -1
    } else {
        1
    }
}

/// The quotient `n / d` rounded toward zero, for a positive divisor.
pub open spec fn quotient(n: int, d: int) -> int
    recommends
        d > 0,
{
    if n >= 0 {
        n / d
    } else {
        -((-n) / d)
    }
}

/// Brings a wide intermediate result back into the stored range.
pub fn saturating(v: i64) -> (r: i32)
    ensures
        r == saturate(v as int),
{
    if v < i32::MIN as i64 {
        i32::MIN
    } else if v > i32::MAX as i64 {
        i32::MAX
    } else {
        v as i32
    }
}

/// Divides by a positive number, rounding toward zero. The quotient lies
/// between zero and the dividend.
pub fn divide(n: i64, d: i64) -> (q: i64)
    requires
        d > 0,
    ensures
        q == quotient(n as int, d as int),
        n >= 0 ==> 0 <= q <= n,
        n <= 0 ==> n <= q <= 0,
{
    n / d
}

} // verus!
