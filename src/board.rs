//! Board geometry. Lengths are fixed-point: one board unit is `UNIT` steps.
//! The board is centred on the origin.

use vstd::prelude::*;

verus! {

/// Fixed-point steps per board unit.
pub const UNIT: i64 = 1000;

pub const BALL_RADIUS: i64 = 10 * UNIT;

/// Speed of a served or deflected ball, per frame.
pub const BALL_SPEED: i64 = 7 * UNIT;

pub const PADDLE_WIDTH: i64 = 10 * UNIT;

pub const PADDLE_HEIGHT: i64 = 80 * UNIT;

/// Largest vertical move of a paddle in one frame.
pub const PADDLE_SPEED: i64 = 4 * UNIT;

pub const BOARD_WIDTH: i64 = 600 * UNIT;

pub const BOARD_HEIGHT: i64 = 400 * UNIT;

/// Lowest centre a paddle may have: `-BOARD_HEIGHT / 2 + PADDLE_HEIGHT / 2`.
pub const PADDLE_MIN_Y: i64 = -160 * UNIT;

/// Highest centre a paddle may have: `BOARD_HEIGHT / 2 - PADDLE_HEIGHT / 2`.
pub const PADDLE_MAX_Y: i64 = 160 * UNIT;

/// Centre line of the paddle on the left edge: `(-BOARD_WIDTH + PADDLE_WIDTH) / 2`.
pub const LEFT_PADDLE_X: i64 = -295 * UNIT;

/// Centre line of the paddle on the right edge: `(BOARD_WIDTH - PADDLE_WIDTH) / 2`.
pub const RIGHT_PADDLE_X: i64 = 295 * UNIT;

/// A ball whose centre reaches this x (or beyond) has passed the right edge:
/// `BOARD_WIDTH / 2 - BALL_RADIUS`.
pub const RIGHT_GOAL_X: i64 = 290 * UNIT;

/// A ball whose centre reaches this x (or beyond) has passed the left edge:
/// `-BOARD_WIDTH / 2 + BALL_RADIUS`.
pub const LEFT_GOAL_X: i64 = -290 * UNIT;

/// A ball whose centre is this far from the middle, vertically, touches a wall:
/// `BOARD_HEIGHT / 2 - BALL_RADIUS`.
pub const WALL_Y: i64 = 190 * UNIT;

/// Horizontal reach of a paddle: `PADDLE_WIDTH / 2 + BALL_RADIUS`.
pub const PADDLE_REACH: i64 = 15 * UNIT;

/// Vertical reach of a paddle: `PADDLE_HEIGHT / 2 + BALL_RADIUS`.
pub const PADDLE_SPAN: i64 = 50 * UNIT;

pub open spec fn abs(v: int) -> int {
    if v < 0 {
        -v
    } else {
        v
    }
}

/// The value `v` limited to the closed interval `[lo, hi]`.
pub open spec fn clamp_spec(v: int, lo: int, hi: int) -> int {
    if v < lo {
        lo
    } else if v > hi {
        hi
    } else {
        v
    }
}

/// Limits `v` to the closed interval `[lo, hi]`.
pub fn clamp(v: i64, lo: i64, hi: i64) -> (r: i64)
    requires
        lo <= hi,
    ensures
        r == clamp_spec(v as int, lo as int, hi as int),
        lo <= r <= hi,
{
    if v < lo {
        lo
    } else if v > hi {
        hi
    } else {
        v
    }
}

} // verus!
