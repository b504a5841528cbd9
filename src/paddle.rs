//! Paddles and the rule that moves them.

use vstd::prelude::*;

use crate::board::{
    abs, clamp, clamp_spec, PADDLE_MAX_Y, PADDLE_MIN_Y, PADDLE_SPEED,
};
use crate::input::{Input, Key};

verus! {

/// Who moves a paddle.
#[derive(Clone, Copy, Debug, PartialEq, Eq, Structural)]
pub enum Control {
    /// A player, with one key for up and one for down.
    Human { up: Key, down: Key },
    /// The computer, which follows the ball.
    Ai,
}

/// A paddle. Only `y` changes during a match.
#[derive(Clone, Copy, Debug)]
pub struct Paddle {
    pub x: i64,
    pub y: i64,
    pub control: Control,
}

/// `1` for up, `-1` for down, `0` where both or neither key is held.
pub open spec fn key_direction(input: &Input, up: Key, down: Key) -> int {
    (if input.holds(up) { 1int } else { 0int }) - (if input.holds(down) { 1int } else { 0int })
}

/// The step towards the ball that the computer takes: the gap, at most
/// `PADDLE_SPEED` either way.
pub open spec fn chase_step(paddle_y: int, ball_y: int) -> int {
    clamp_spec(ball_y - paddle_y, -PADDLE_SPEED as int, PADDLE_SPEED as int)
}

/// The step that the computer takes, for any paddle and ball position.
pub fn chase(paddle_y: i64, ball_y: i64) -> (d: i64)
    ensures
        d == chase_step(paddle_y as int, ball_y as int),
        abs(d as int) <= PADDLE_SPEED,
{
    let gap: i128 = ball_y as i128 - paddle_y as i128;
    if gap < -(PADDLE_SPEED as i128) {
        -PADDLE_SPEED
    } else if gap > PADDLE_SPEED as i128 {
        PADDLE_SPEED
    } else {
        gap as i64
    }
}

impl Paddle {
    /// The paddle lies within the board.
    pub open spec fn wf(&self) -> bool {
        PADDLE_MIN_Y <= self.y <= PADDLE_MAX_Y
    }

    /// The vertical move this frame, before the paddle is kept on the board.
    pub open spec fn displacement_spec(&self, input: &Input, ball_y: int) -> int {
        match self.control {
            Control::Human { up, down } => key_direction(input, up, down) * PADDLE_SPEED,
            Control::Ai => chase_step(self.y as int, ball_y),
        }
    }

    /// The paddle after one update: moved by its displacement, then kept on
    /// the board.
    pub open spec fn moved_spec(&self, input: &Input, ball_y: int) -> Paddle {
        Paddle {
            x: self.x,
            y: clamp_spec(
                self.y + self.displacement_spec(input, ball_y),
                PADDLE_MIN_Y as int,
                PADDLE_MAX_Y as int,
            ) as i64,
            control: self.control,
        }
    }

    /// A paddle at height zero on the given line.
    pub fn new(x: i64, control: Control) -> (p: Paddle)
        ensures
            p.x == x,
            p.y == 0,
            p.control == control,
            p.wf(),
    {
        Paddle { x, y: 0, control }
    }

    pub fn displacement(&self, input: &Input, ball_y: i64) -> (d: i64)
        ensures
            d == self.displacement_spec(input, ball_y as int),
            abs(d as int) <= PADDLE_SPEED,
    {
        match self.control {
            Control::Human { up, down } => {
                let mut d: i64 = 0;
                if input.is_held(up) {
                    d = d + PADDLE_SPEED;
                }
                if input.is_held(down) {
                    d = d - PADDLE_SPEED;
                }
                d
            },
            Control::Ai => chase(self.y, ball_y),
        }
    }

    /// Moves the paddle by its displacement and keeps it on the board.
    pub fn update(&mut self, input: &Input, ball_y: i64)
        requires
            old(self).wf(),
        ensures
            final(self).wf(),
            *final(self) == old(self).moved_spec(input, ball_y as int),
    {
        let d = self.displacement(input, ball_y);
        self.y = clamp(self.y + d, PADDLE_MIN_Y, PADDLE_MAX_Y);
    }
}

} // verus!
