//! Contact between the ball and a paddle, and how contact and walls turn the
//! ball.

use vstd::prelude::*;

use crate::board::{abs, BALL_SPEED, PADDLE_REACH, PADDLE_SPAN, WALL_Y};

verus! {

/// How a paddle meets the ball in one frame.
#[derive(Clone, Copy, Debug, PartialEq, Eq, Structural)]
pub enum Contact {
    Miss,
    /// The ball is just left of the paddle's centre line: it goes back left.
    SendsLeft,
    /// The ball is just right of the paddle's centre line: it goes back right.
    SendsRight,
}

/// The velocity of a deflected ball before its horizontal sign is chosen:
/// `along == BALL_SPEED * cos(angle)`, `across == BALL_SPEED * sin(angle)`,
/// where `angle` is the reflection angle of the struck paddle.
#[derive(Clone, Copy, Debug, PartialEq, Eq, Structural)]
pub struct Deflection {
    pub along: i64,
    pub across: i64,
}

impl Deflection {
    /// The angle lies strictly between a quarter turn down and a quarter turn
    /// up, so the ball always keeps some horizontal speed.
    pub open spec fn wf(&self) -> bool {
        0 < self.along <= BALL_SPEED && abs(self.across as int) <= BALL_SPEED
    }

    /// The deflection at angle zero: straight back, at full speed.
    pub fn level() -> (d: Deflection)
        ensures
            d.wf(),
            d.along == BALL_SPEED,
            d.across == 0,
    {
        Deflection { along: BALL_SPEED, across: 0 }
    }
}

/// Contact of a ball centred at `(ball_x, ball_y)` with a paddle centred at
/// `(paddle_x, paddle_y)`. A ball exactly on the centre line makes none.
pub open spec fn contact_spec(ball_x: int, ball_y: int, paddle_x: int, paddle_y: int) -> Contact {
    let distance = paddle_x - ball_x;
    if abs(ball_y - paddle_y) > PADDLE_SPAN {
        Contact::Miss
    } else if 0 < distance <= PADDLE_REACH {
        Contact::SendsLeft
    } else if -PADDLE_REACH <= distance < 0 {
        Contact::SendsRight
    } else {
        Contact::Miss
    }
}

pub fn contact(ball_x: i64, ball_y: i64, paddle_x: i64, paddle_y: i64) -> (c: Contact)
    ensures
        c == contact_spec(ball_x as int, ball_y as int, paddle_x as int, paddle_y as int),
{
    let rise: i128 = ball_y as i128 - paddle_y as i128;
    let distance: i128 = paddle_x as i128 - ball_x as i128;
    let reach = PADDLE_REACH as i128;
    if rise > PADDLE_SPAN as i128 || rise < -(PADDLE_SPAN as i128) {
        Contact::Miss
    } else if 0 < distance && distance <= reach {
        Contact::SendsLeft
    } else if -reach <= distance && distance < 0 {
        Contact::SendsRight
    } else {
        Contact::Miss
    }
}

/// Vertical offset of the ball from a paddle's centre. The reflection angle is
/// `offset * pi / (2 * PADDLE_HEIGHT)`.
pub fn reflection_offset(ball_y: i64, paddle_y: i64) -> (r: i128)
    ensures
        r == ball_y - paddle_y,
{
    ball_y as i128 - paddle_y as i128
}

/// The velocity after a paddle's contact: unchanged on a miss, else the
/// deflection, away from the paddle.
pub open spec fn struck_spec(v: (int, int), c: Contact, d: Deflection) -> (int, int) {
    match c {
        Contact::Miss => v,
        Contact::SendsLeft => (-(d.along as int), d.across as int),
        Contact::SendsRight => (d.along as int, d.across as int),
    }
}

/// The velocity after the wall check: a ball at or beyond either wall line has
/// its vertical speed turned over.
pub open spec fn walled_spec(ball_y: int, v: (int, int)) -> (int, int) {
    if abs(ball_y) >= WALL_Y {
        (v.0, -v.1)
    } else {
        v
    }
}

pub fn struck(vx: i64, vy: i64, c: Contact, d: Deflection) -> (r: (i64, i64))
    requires
        d.wf(),
    ensures
        (r.0 as int, r.1 as int) == struck_spec((vx as int, vy as int), c, d),
{
    match c {
        Contact::Miss => (vx, vy),
        Contact::SendsLeft => (-d.along, d.across),
        Contact::SendsRight => (d.along, d.across),
    }
}

pub fn walled(ball_y: i64, vx: i64, vy: i64) -> (r: (i64, i64))
    requires
        abs(vy as int) <= BALL_SPEED,
    ensures
        (r.0 as int, r.1 as int) == walled_spec(ball_y as int, (vx as int, vy as int)),
{
    if ball_y >= WALL_Y || ball_y <= -WALL_Y {
        (vx, -vy)
    } else {
        (vx, vy)
    }
}

} // verus!
