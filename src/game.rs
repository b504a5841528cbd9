//! The game state and the per-frame rules: paddles, serve, collision, motion
//! and scoring.

use vstd::prelude::*;

use crate::board::{
    abs, BALL_SPEED, LEFT_GOAL_X, LEFT_PADDLE_X, RIGHT_GOAL_X, RIGHT_PADDLE_X,
};
use crate::collide::{
    contact, contact_spec, reflection_offset, struck, struck_spec, walled, walled_spec, Deflection,
};
use crate::input::{Input, Key, SERVE_KEY};
use crate::paddle::{Control, Paddle};

verus! {

/// The ball: centre and velocity per frame.
#[derive(Clone, Copy, Debug, PartialEq, Eq, Structural)]
pub struct Ball {
    pub x: i64,
    pub y: i64,
    pub vx: i64,
    pub vy: i64,
}

/// Points of each side. `left` counts the balls that passed the right edge.
#[derive(Clone, Copy, Debug, PartialEq, Eq, Structural)]
pub struct Score {
    pub left: u64,
    pub right: u64,
}

/// What one scoring check found, with the scoring side's new total.
#[derive(Clone, Copy, Debug, PartialEq, Eq, Structural)]
pub enum Goal {
    Nobody,
    Left(u64),
    Right(u64),
}

/// Everything that a match holds.
#[derive(Clone, Copy, Debug)]
pub struct GameState {
    pub ball: Ball,
    pub left: Paddle,
    pub right: Paddle,
    pub score: Score,
}

impl Ball {
    /// The ball waits for a serve.
    pub open spec fn is_idle(&self) -> bool {
        self.vx == 0 && self.vy == 0
    }

    /// The ball waits at the centre.
    pub open spec fn at_rest(&self) -> bool {
        self.x == 0 && self.y == 0 && self.is_idle()
    }

    /// No rule gives the ball more than `BALL_SPEED` along either axis.
    pub open spec fn wf(&self) -> bool {
        abs(self.vx as int) <= BALL_SPEED && abs(self.vy as int) <= BALL_SPEED
    }

    /// One more frame of motion stays within `i64`.
    pub open spec fn can_move(&self) -> bool {
        i64::MIN <= self.x + self.vx <= i64::MAX && i64::MIN <= self.y + self.vy <= i64::MAX
    }

    /// The ball is far enough from the ends of `i64` to move at any speed
    /// that the rules give it.
    pub open spec fn in_range(&self) -> bool {
        abs(self.x as int) <= i64::MAX - BALL_SPEED && abs(self.y as int) <= i64::MAX - BALL_SPEED
    }

    pub fn rest() -> (b: Ball)
        ensures
            b.at_rest(),
            b.wf(),
    {
        Ball { x: 0, y: 0, vx: 0, vy: 0 }
    }
}

/// The ball after the serve check: a serve launches an idle ball rightwards
/// from the centre; otherwise nothing changes.
pub open spec fn serve_spec(b: Ball, pressed: bool) -> Ball {
    if pressed && b.is_idle() {
        Ball { x: 0, y: 0, vx: BALL_SPEED, vy: 0 }
    } else {
        b
    }
}

/// The velocity after collision: the left paddle's contact, then the right
/// paddle's, then the walls, each applied to what the one before left.
pub open spec fn collide_spec(
    b: Ball,
    left: Paddle,
    right: Paddle,
    left_turn: Deflection,
    right_turn: Deflection,
) -> (int, int) {
    let v0 = (b.vx as int, b.vy as int);
    let v1 = struck_spec(v0, contact_spec(b.x as int, b.y as int, left.x as int, left.y as int), left_turn);
    let v2 = struck_spec(v1, contact_spec(b.x as int, b.y as int, right.x as int, right.y as int), right_turn);
    walled_spec(b.y as int, v2)
}

/// The state after the scoring check: a ball at or past either goal line
/// gives the other side one point and goes back to rest at the centre.
pub open spec fn scoring_spec(s: GameState) -> GameState {
    if s.ball.x >= RIGHT_GOAL_X {
        GameState {
            ball: Ball { x: 0, y: 0, vx: 0, vy: 0 },
            left: s.left,
            right: s.right,
            score: Score { left: (s.score.left + 1) as u64, right: s.score.right },
        }
    } else if s.ball.x <= LEFT_GOAL_X {
        GameState {
            ball: Ball { x: 0, y: 0, vx: 0, vy: 0 },
            left: s.left,
            right: s.right,
            score: Score { left: s.score.left, right: (s.score.right + 1) as u64 },
        }
    } else {
        s
    }
}

/// What the scoring check reports for the state `s` it looks at.
pub open spec fn goal_spec(s: GameState) -> Goal {
    if s.ball.x >= RIGHT_GOAL_X {
        Goal::Left((s.score.left + 1) as u64)
    } else if s.ball.x <= LEFT_GOAL_X {
        Goal::Right((s.score.right + 1) as u64)
    } else {
        Goal::Nobody
    }
}

/// The state after the first half of a frame: paddles moved, then the serve
/// check.
pub open spec fn begin_frame_spec(s: GameState, input: &Input) -> GameState {
    GameState {
        ball: serve_spec(s.ball, input.went_down(SERVE_KEY)),
        left: s.left.moved_spec(input, s.ball.y as int),
        right: s.right.moved_spec(input, s.ball.y as int),
        score: s.score,
    }
}

/// The state after collision and one step of motion, before the scoring
/// check.
pub open spec fn advance_spec(s: GameState, left_turn: Deflection, right_turn: Deflection) -> GameState {
    let v = collide_spec(s.ball, s.left, s.right, left_turn, right_turn);
    let b = Ball {
        x: (s.ball.x + v.0) as i64,
        y: (s.ball.y + v.1) as i64,
        vx: v.0 as i64,
        vy: v.1 as i64,
    };
    GameState { ball: b, left: s.left, right: s.right, score: s.score }
}

impl GameState {
    /// Both paddles on their lines and on the board, the ball within its
    /// speed limit.
    pub open spec fn wf(&self) -> bool {
        &&& self.ball.wf()
        &&& self.left.wf()
        &&& self.right.wf()
        &&& self.left.x == LEFT_PADDLE_X
        &&& self.right.x == RIGHT_PADDLE_X
    }

    /// Neither side's points are at the top of `u64`.
    pub open spec fn has_room(&self) -> bool {
        self.score.left < u64::MAX && self.score.right < u64::MAX
    }

    /// A new match: ball at rest, score nil, paddles level. The right paddle
    /// is a player's on Up and Down; the left one is a player's on W and S when
    /// `two_players`, else the computer's.
    pub fn new(two_players: bool) -> (s: GameState)
        ensures
            s.wf(),
            s.ball.at_rest(),
            s.score == (Score { left: 0, right: 0 }),
            s.left.y == 0,
            s.right.y == 0,
            s.right.control == (Control::Human { up: Key::Up, down: Key::Down }),
            two_players ==> s.left.control == (Control::Human { up: Key::W, down: Key::S }),
            !two_players ==> s.left.control == Control::Ai,
    {
        let left_control = if two_players {
            Control::Human { up: Key::W, down: Key::S }
        } else {
            Control::Ai
        };
        GameState {
            ball: Ball::rest(),
            left: Paddle::new(LEFT_PADDLE_X, left_control),
            right: Paddle::new(RIGHT_PADDLE_X, Control::Human { up: Key::Up, down: Key::Down }),
            score: Score { left: 0, right: 0 },
        }
    }

    /// Moves both paddles, each by its own control, towards where the ball is
    /// now.
    pub fn move_paddles(&mut self, input: &Input)
        requires
            old(self).wf(),
        ensures
            final(self).wf(),
            final(self).ball == old(self).ball,
            final(self).score == old(self).score,
            final(self).left == old(self).left.moved_spec(input, old(self).ball.y as int),
            final(self).right == old(self).right.moved_spec(input, old(self).ball.y as int),
    {
        let ball_y = self.ball.y;
        self.left.update(input, ball_y);
        self.right.update(input, ball_y);
    }

    /// Serves the ball where the serve key went down in this frame and the
    /// ball is idle.
    pub fn start_game(&mut self, input: &Input)
        requires
            old(self).wf(),
        ensures
            final(self).wf(),
            final(self).ball == serve_spec(old(self).ball, input.went_down(SERVE_KEY)),
            final(self).left == old(self).left,
            final(self).right == old(self).right,
            final(self).score == old(self).score,
    {
        if input.just_pressed(SERVE_KEY) && self.ball.vx == 0 && self.ball.vy == 0 {
            self.ball = Ball { x: 0, y: 0, vx: BALL_SPEED, vy: 0 };
        }
    }

    /// Offsets of the ball from the centres of the left and the right paddle,
    /// from which the reflection angles are taken.
    pub fn paddle_offsets(&self) -> (r: (i128, i128))
        ensures
            r.0 == self.ball.y - self.left.y,
            r.1 == self.ball.y - self.right.y,
    {
        (reflection_offset(self.ball.y, self.left.y), reflection_offset(self.ball.y, self.right.y))
    }

    /// Turns the ball off whichever paddle it touches, then off the walls.
    /// `left_turn` and `right_turn` are the deflections at the two paddles'
    /// reflection angles.
    pub fn collision(&mut self, left_turn: Deflection, right_turn: Deflection)
        requires
            old(self).wf(),
            left_turn.wf(),
            right_turn.wf(),
        ensures
            final(self).wf(),
            (final(self).ball.vx as int, final(self).ball.vy as int) == collide_spec(
                old(self).ball,
                old(self).left,
                old(self).right,
                left_turn,
                right_turn,
            ),
            final(self).ball.x == old(self).ball.x,
            final(self).ball.y == old(self).ball.y,
            final(self).left == old(self).left,
            final(self).right == old(self).right,
            final(self).score == old(self).score,
    {
        let b = self.ball;
        let c = contact(b.x, b.y, self.left.x, self.left.y);
        let v1 = struck(b.vx, b.vy, c, left_turn);
        let c = contact(b.x, b.y, self.right.x, self.right.y);
        let v2 = struck(v1.0, v1.1, c, right_turn);
        let v3 = walled(b.y, v2.0, v2.1);
        self.ball.vx = v3.0;
        self.ball.vy = v3.1;
    }

    /// Moves the ball by its velocity.
    pub fn move_ball(&mut self)
        requires
            old(self).ball.can_move(),
        ensures
            final(self).ball.x == old(self).ball.x + old(self).ball.vx,
            final(self).ball.y == old(self).ball.y + old(self).ball.vy,
            final(self).ball.vx == old(self).ball.vx,
            final(self).ball.vy == old(self).ball.vy,
            final(self).left == old(self).left,
            final(self).right == old(self).right,
            final(self).score == old(self).score,
    {
        self.ball.x = self.ball.x + self.ball.vx;
        self.ball.y = self.ball.y + self.ball.vy;
    }

    /// Gives a point for a ball at or past a goal line and puts the ball back
    /// at rest.
    pub fn score(&mut self) -> (g: Goal)
        requires
            old(self).has_room(),
        ensures
            *final(self) == scoring_spec(*old(self)),
            g == goal_spec(*old(self)),
    {
        if self.ball.x >= RIGHT_GOAL_X {
            self.score.left = self.score.left + 1;
            self.ball = Ball::rest();
            Goal::Left(self.score.left)
        } else if self.ball.x <= LEFT_GOAL_X {
            self.score.right = self.score.right + 1;
            self.ball = Ball::rest();
            Goal::Right(self.score.right)
        } else {
            Goal::Nobody
        }
    }

    /// The first half of a frame: paddles, then serve. The reflection angles
    /// for `end_frame` are taken from the state this leaves.
    pub fn begin_frame(&mut self, input: &Input)
        requires
            old(self).wf(),
        ensures
            final(self).wf(),
            *final(self) == begin_frame_spec(*old(self), input),
    {
        self.move_paddles(input);
        self.start_game(input);
    }

    /// The second half of a frame: collision, motion, scoring.
    pub fn end_frame(&mut self, left_turn: Deflection, right_turn: Deflection) -> (g: Goal)
        requires
            old(self).wf(),
            old(self).ball.in_range(),
            old(self).has_room(),
            left_turn.wf(),
            right_turn.wf(),
        ensures
            final(self).wf(),
            *final(self) == scoring_spec(advance_spec(*old(self), left_turn, right_turn)),
            g == goal_spec(advance_spec(*old(self), left_turn, right_turn)),
    {
        self.collision(left_turn, right_turn);
        self.move_ball();
        self.score()
    }
}

} // verus!
