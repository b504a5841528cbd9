//! Properties that hold across the rules of the game.

use vstd::prelude::*;

use crate::board::{abs, BALL_SPEED, PADDLE_SPEED, RIGHT_GOAL_X};
use crate::collide::{contact_spec, struck_spec, Contact, Deflection};
use crate::game::{
    advance_spec, collide_spec, goal_spec, scoring_spec, serve_spec, Ball, GameState, Goal,
};
use crate::input::Input;
use crate::paddle::{Control, Paddle};

verus! {

/// Whatever the input and wherever the ball, an updated paddle lies on the
/// board.
pub proof fn paddle_stays_on_board(p: Paddle, input: &Input, ball_y: int)
    ensures
        p.moved_spec(input, ball_y).wf(),
{
}

/// A paddle moved by the computer moves at most `PADDLE_SPEED`, and ends
/// between where it was and the ball's height: it never moves away from the
/// ball, nor past it.
pub proof fn computer_paddle_follows_ball(p: Paddle, input: &Input, ball_y: int)
    requires
        p.wf(),
        p.control == Control::Ai,
    ensures
        abs(p.moved_spec(input, ball_y).y - p.y) <= PADDLE_SPEED,
        ball_y >= p.y ==> p.y <= p.moved_spec(input, ball_y).y <= ball_y,
        ball_y <= p.y ==> ball_y <= p.moved_spec(input, ball_y).y <= p.y,
{
}

/// A ball that a paddle sends left leaves the collision check moving left;
/// one that a paddle sends right leaves it moving right. The walls turn only
/// the vertical speed, and the two paddles are too far apart to touch the ball
/// in one frame.
pub proof fn struck_ball_moves_away(s: GameState, left_turn: Deflection, right_turn: Deflection)
    requires
        s.wf(),
        left_turn.wf(),
        right_turn.wf(),
    ensures
        ({
            let cl = contact_spec(s.ball.x as int, s.ball.y as int, s.left.x as int, s.left.y as int);
            let cr = contact_spec(s.ball.x as int, s.ball.y as int, s.right.x as int, s.right.y as int);
            let v = collide_spec(s.ball, s.left, s.right, left_turn, right_turn);
            &&& (cl == Contact::SendsLeft || cr == Contact::SendsLeft) ==> v.0 < 0
            &&& (cl == Contact::SendsRight || cr == Contact::SendsRight) ==> v.0 > 0
        }),
{
}

/// A ball struck level with the paddle's centre has reflection angle zero:
/// it goes straight back at full speed, with no vertical speed.
pub proof fn centre_hit_goes_straight_back(v: (int, int), c: Contact, d: Deflection)
    requires
        c != Contact::Miss,
        d.along == BALL_SPEED,
        d.across == 0,
    ensures
        c == Contact::SendsLeft ==> struck_spec(v, c, d) == (-BALL_SPEED as int, 0int),
        c == Contact::SendsRight ==> struck_spec(v, c, d) == (BALL_SPEED as int, 0int),
{
}

/// A ball at or past the right goal line gives the left side exactly one
/// point, leaves the right side's points alone, and goes back to rest at the
/// centre.
pub proof fn right_goal_scores_left_once(s: GameState)
    requires
        s.has_room(),
        s.ball.x >= RIGHT_GOAL_X,
    ensures
        scoring_spec(s).score.left == s.score.left + 1,
        scoring_spec(s).score.right == s.score.right,
        scoring_spec(s).ball.at_rest(),
{
}

/// A ball at rest at the centre scores nothing, and a second scoring check
/// straight after a first changes nothing: the ball must cross a goal line
/// again to score again.
pub proof fn scoring_is_idempotent(s: GameState)
    ensures
        s.ball.at_rest() ==> scoring_spec(s) == s,
        scoring_spec(scoring_spec(s)) == scoring_spec(s),
{
}

/// A serve launches an idle ball from the centre at `(BALL_SPEED, 0)`; a
/// ball in play ignores the serve key, so a second serve changes nothing.
pub proof fn serve_only_when_idle(b: Ball, pressed: bool)
    ensures
        pressed && b.is_idle() ==> serve_spec(b, pressed) == (Ball { x: 0, y: 0, vx: BALL_SPEED, vy: 0 }),
        !b.is_idle() ==> serve_spec(b, pressed) == b,
        serve_spec(serve_spec(b, pressed), pressed) == serve_spec(b, pressed),
{
}

/// A ball in play keeps moving sideways through collision and motion: its
/// velocity is zero only while it waits for a serve, which only a goal brings
/// back.
pub proof fn ball_in_play_keeps_moving(s: GameState, left_turn: Deflection, right_turn: Deflection)
    requires
        s.wf(),
        left_turn.wf(),
        right_turn.wf(),
        s.ball.vx != 0,
    ensures
        advance_spec(s, left_turn, right_turn).ball.vx != 0,
        scoring_spec(advance_spec(s, left_turn, right_turn)).ball.is_idle() ==> goal_spec(
            advance_spec(s, left_turn, right_turn),
        ) != Goal::Nobody,
{
}

} // verus!
