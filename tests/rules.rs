use pong::board::{clamp, BALL_SPEED, PADDLE_MAX_Y, PADDLE_MIN_Y, PADDLE_SPEED, UNIT};
use pong::collide::{contact, reflection_offset, struck, walled, Contact, Deflection};
use pong::game::{Ball, GameState, Goal, Score};
use pong::input::{Input, Key};
use pong::paddle::{chase, Control, Paddle};

fn holding(keys: Vec<Key>) -> Input {
    Input { held: keys, just_pressed: Vec::new() }
}

fn pressing(keys: Vec<Key>) -> Input {
    Input { held: Vec::new(), just_pressed: keys }
}

#[test]
fn clamp_limits_to_interval() {
    assert_eq!(clamp(5, 0, 10), 5);
    assert_eq!(clamp(-3, 0, 10), 0);
    assert_eq!(clamp(12, 0, 10), 10);
    assert_eq!(clamp(10, 0, 10), 10);
}

#[test]
fn input_reports_held_and_pressed_keys() {
    let input = Input { held: vec![Key::W, Key::Down], just_pressed: vec![Key::Enter] };
    assert!(input.is_held(Key::W));
    assert!(input.is_held(Key::Down));
    assert!(!input.is_held(Key::Up));
    assert!(input.just_pressed(Key::Enter));
    assert!(!input.just_pressed(Key::W));
    let none = Input::idle();
    assert!(!none.is_held(Key::S));
    assert!(!none.just_pressed(Key::Enter));
}

#[test]
fn human_paddle_directions() {
    let p = Paddle::new(0, Control::Human { up: Key::Up, down: Key::Down });
    assert_eq!(p.displacement(&holding(vec![Key::Up]), 0), PADDLE_SPEED);
    assert_eq!(p.displacement(&holding(vec![Key::Down]), 0), -PADDLE_SPEED);
    assert_eq!(p.displacement(&holding(vec![Key::Up, Key::Down]), 0), 0);
    assert_eq!(p.displacement(&holding(vec![]), 0), 0);
    assert_eq!(p.displacement(&holding(vec![Key::W]), 0), 0);
}

#[test]
fn paddle_is_clamped_at_the_top_and_bottom() {
    let mut p = Paddle::new(0, Control::Human { up: Key::W, down: Key::S });
    for _ in 0..100 {
        p.update(&holding(vec![Key::W]), 0);
        assert!(p.y >= PADDLE_MIN_Y && p.y <= PADDLE_MAX_Y);
    }
    assert_eq!(p.y, 160 * UNIT);
    for _ in 0..200 {
        p.update(&holding(vec![Key::S]), 0);
        assert!(p.y >= PADDLE_MIN_Y && p.y <= PADDLE_MAX_Y);
    }
    assert_eq!(p.y, -160 * UNIT);
}

#[test]
fn computer_step_is_capped_gap() {
    assert_eq!(chase(0, 10 * UNIT), PADDLE_SPEED);
    assert_eq!(chase(0, -10 * UNIT), -PADDLE_SPEED);
    assert_eq!(chase(0, 1500), 1500);
    assert_eq!(chase(2000, 500), -1500);
    assert_eq!(chase(0, i64::MAX), PADDLE_SPEED);
    assert_eq!(chase(0, i64::MIN), -PADDLE_SPEED);
}

#[test]
fn computer_paddle_moves_towards_ball() {
    let input = Input::idle();
    let mut p = Paddle::new(0, Control::Ai);
    p.update(&input, 100 * UNIT);
    assert_eq!(p.y, PADDLE_SPEED);
    p.update(&input, 5 * UNIT);
    assert_eq!(p.y, 5 * UNIT);
    p.update(&input, 5 * UNIT);
    assert_eq!(p.y, 5 * UNIT);
    p.update(&input, -100 * UNIT);
    assert_eq!(p.y, 1 * UNIT);
}

#[test]
fn contact_bands() {
    let px = 295 * UNIT;
    assert_eq!(contact(285 * UNIT, 0, px, 0), Contact::SendsLeft);
    assert_eq!(contact(280 * UNIT, 0, px, 0), Contact::SendsLeft);
    assert_eq!(contact(280 * UNIT - 1, 0, px, 0), Contact::Miss);
    assert_eq!(contact(px, 0, px, 0), Contact::Miss);
    assert_eq!(contact(300 * UNIT, 0, px, 0), Contact::SendsRight);
    assert_eq!(contact(310 * UNIT, 0, px, 0), Contact::SendsRight);
    assert_eq!(contact(310 * UNIT + 1, 0, px, 0), Contact::Miss);
    assert_eq!(contact(285 * UNIT, 50 * UNIT, px, 0), Contact::SendsLeft);
    assert_eq!(contact(285 * UNIT, 50 * UNIT + 1, px, 0), Contact::Miss);
    assert_eq!(contact(285 * UNIT, -50 * UNIT - 1, px, 0), Contact::Miss);
}

#[test]
fn struck_and_walled_velocities() {
    let d = Deflection { along: 6000, across: 2500 };
    assert_eq!(struck(7000, 0, Contact::SendsLeft, d), (-6000, 2500));
    assert_eq!(struck(-7000, 0, Contact::SendsRight, d), (6000, 2500));
    assert_eq!(struck(7000, 100, Contact::Miss, d), (7000, 100));
    assert_eq!(walled(190 * UNIT, 7000, 3000), (7000, -3000));
    assert_eq!(walled(-190 * UNIT, 7000, -3000), (7000, 3000));
    assert_eq!(walled(189 * UNIT, 7000, 3000), (7000, 3000));
    assert_eq!(reflection_offset(30 * UNIT, 10 * UNIT), 20 * UNIT as i128);
}

#[test]
fn right_paddle_sends_ball_left_level() {
    let mut s = GameState::new(true);
    s.ball = Ball { x: 285 * UNIT, y: 0, vx: BALL_SPEED, vy: 0 };
    assert_eq!(s.paddle_offsets(), (0, 0));
    s.collision(Deflection::level(), Deflection::level());
    assert_eq!((s.ball.vx, s.ball.vy), (-BALL_SPEED, 0));
    assert_eq!((s.ball.x, s.ball.y), (285 * UNIT, 0));
}

#[test]
fn left_paddle_sends_ball_right() {
    let mut s = GameState::new(true);
    s.ball = Ball { x: -285 * UNIT, y: 20 * UNIT, vx: -BALL_SPEED, vy: 0 };
    let turn = Deflection { along: 4950, across: 4950 };
    s.collision(turn, Deflection::level());
    assert_eq!((s.ball.vx, s.ball.vy), (4950, 4950));
}

#[test]
fn paddle_hit_and_wall_both_apply() {
    let mut s = GameState::new(true);
    s.right.y = 160 * UNIT;
    s.ball = Ball { x: 285 * UNIT, y: 195 * UNIT, vx: BALL_SPEED, vy: 1000 };
    let turn = Deflection { along: 5000, across: 4000 };
    s.collision(Deflection::level(), turn);
    assert_eq!((s.ball.vx, s.ball.vy), (-5000, -4000));
}

#[test]
fn ball_moves_by_velocity() {
    let mut s = GameState::new(true);
    s.ball = Ball { x: 10, y: -20, vx: 7000, vy: -300 };
    s.move_ball();
    assert_eq!(s.ball, Ball { x: 7010, y: -320, vx: 7000, vy: -300 });
}

#[test]
fn right_goal_gives_left_one_point() {
    let mut s = GameState::new(true);
    s.ball = Ball { x: 290 * UNIT + 1, y: 40, vx: BALL_SPEED, vy: 3 };
    assert_eq!(s.score(), Goal::Left(1));
    assert_eq!(s.score, Score { left: 1, right: 0 });
    assert_eq!(s.ball, Ball { x: 0, y: 0, vx: 0, vy: 0 });
}

#[test]
fn left_goal_gives_right_one_point() {
    let mut s = GameState::new(true);
    s.ball = Ball { x: -290 * UNIT, y: 0, vx: -BALL_SPEED, vy: 0 };
    assert_eq!(s.score(), Goal::Right(1));
    assert_eq!(s.score, Score { left: 0, right: 1 });
    assert_eq!(s.ball, Ball { x: 0, y: 0, vx: 0, vy: 0 });
}

#[test]
fn no_goal_inside_the_lines() {
    let mut s = GameState::new(true);
    s.ball = Ball { x: 290 * UNIT - 1, y: 0, vx: BALL_SPEED, vy: 0 };
    assert_eq!(s.score(), Goal::Nobody);
    assert_eq!(s.ball.x, 290 * UNIT - 1);
    assert_eq!(s.score, Score { left: 0, right: 0 });
}

#[test]
fn repeated_scoring_checks_score_once() {
    let mut s = GameState::new(true);
    s.ball = Ball { x: 300 * UNIT, y: 0, vx: BALL_SPEED, vy: 0 };
    assert_eq!(s.score(), Goal::Left(1));
    for _ in 0..5 {
        assert_eq!(s.score(), Goal::Nobody);
    }
    assert_eq!(s.score, Score { left: 1, right: 0 });
    assert_eq!(s.ball, Ball { x: 0, y: 0, vx: 0, vy: 0 });
}

#[test]
fn serve_only_from_idle() {
    let mut s = GameState::new(true);
    s.ball = Ball { x: 0, y: 0, vx: 0, vy: 0 };
    s.start_game(&Input::idle());
    assert_eq!(s.ball, Ball { x: 0, y: 0, vx: 0, vy: 0 });
    s.start_game(&pressing(vec![Key::Enter]));
    assert_eq!(s.ball, Ball { x: 0, y: 0, vx: BALL_SPEED, vy: 0 });
    s.ball = Ball { x: 50, y: 60, vx: -BALL_SPEED, vy: 20 };
    s.start_game(&pressing(vec![Key::Enter]));
    assert_eq!(s.ball, Ball { x: 50, y: 60, vx: -BALL_SPEED, vy: 20 });
    s.start_game(&holding(vec![Key::Enter]));
    assert_eq!(s.ball, Ball { x: 50, y: 60, vx: -BALL_SPEED, vy: 20 });
}

#[test]
fn new_match_layout() {
    let s = GameState::new(false);
    assert_eq!(s.left.x, -295 * UNIT);
    assert_eq!(s.right.x, 295 * UNIT);
    assert_eq!(s.left.control, Control::Ai);
    assert_eq!(s.right.control, Control::Human { up: Key::Up, down: Key::Down });
    assert_eq!(s.ball, Ball { x: 0, y: 0, vx: 0, vy: 0 });
    assert_eq!(s.score, Score { left: 0, right: 0 });
    let two = GameState::new(true);
    assert_eq!(two.left.control, Control::Human { up: Key::W, down: Key::S });
}

#[test]
fn serve_travels_right_and_scores() {
    let mut s = GameState::new(true);
    // move the right paddle out of the ball's path
    for _ in 0..40 {
        s.begin_frame(&holding(vec![Key::Up]));
        assert_eq!(s.end_frame(Deflection::level(), Deflection::level()), Goal::Nobody);
    }
    assert_eq!(s.right.y, 160 * UNIT);
    assert_eq!(s.ball, Ball { x: 0, y: 0, vx: 0, vy: 0 });
    s.begin_frame(&pressing(vec![Key::Enter]));
    assert_eq!(s.ball, Ball { x: 0, y: 0, vx: BALL_SPEED, vy: 0 });
    let mut frames = 0;
    loop {
        let before = s.ball.x;
        let goal = s.end_frame(Deflection::level(), Deflection::level());
        frames += 1;
        if goal != Goal::Nobody {
            assert_eq!(goal, Goal::Left(1));
            break;
        }
        assert!(s.ball.x > before);
        assert!(frames < 100);
        s.begin_frame(&Input::idle());
    }
    assert_eq!(frames, 42);
    assert_eq!(s.score, Score { left: 1, right: 0 });
    assert_eq!(s.ball, Ball { x: 0, y: 0, vx: 0, vy: 0 });
}

#[test]
fn computer_paddle_tracks_ball_during_frames() {
    let mut s = GameState::new(false);
    s.ball = Ball { x: 0, y: 30 * UNIT, vx: BALL_SPEED, vy: 0 };
    s.begin_frame(&Input::idle());
    assert_eq!(s.left.y, PADDLE_SPEED);
    assert_eq!(s.right.y, 0);
}
