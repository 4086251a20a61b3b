use pong::ball::Ball;
use pong::config::Config;
use pong::game::GameState;
use pong::paddle::{Controller, Input, Paddle};

fn human_paddle(x: i32, y: i32, w: i32, h: i32) -> Paddle {
    Paddle { x, y, w, h, controller: Controller::Human }
}

fn bot_paddle(x: i32, y: i32, w: i32, h: i32) -> Paddle {
    Paddle { x, y, w, h, controller: Controller::Bot }
}

fn no_input() -> Input {
    Input { up: false, down: false }
}

#[test]
fn move_inside_margins_is_applied() {
    let cfg = Config::standard();
    let mut p = human_paddle(20, 300, 10, 120);
    p.move_y(-299, &cfg);
    assert_eq!(p.y, 1);
    p.move_y(50, &cfg);
    assert_eq!(p.y, 51);
}

#[test]
fn move_into_top_margin_is_wholly_undone() {
    let cfg = Config::standard();
    let mut p = human_paddle(20, 300, 10, 120);
    p.move_y(-300, &cfg);
    assert_eq!(p.y, 300);
}

#[test]
fn move_into_bottom_margin_is_wholly_undone() {
    let cfg = Config::standard();
    let mut p = human_paddle(20, 300, 10, 120);
    p.move_y(380, &cfg);
    assert_eq!(p.y, 300);
    p.move_y(379, &cfg);
    assert_eq!(p.y, 679);
}

#[test]
fn collision_reflects_horizontal_velocity() {
    let p = human_paddle(50, 100, 10, 100);
    let mut b = Ball { x: 55, y: 150, vx: -2, vy: 1, radius: 8 };
    b.check_collision_with(&p);
    assert_eq!(b.vx, 2);
    assert_eq!(b.vy, 1);
    assert_eq!(b.x, 55);
    assert_eq!(b.y, 150);
}

#[test]
fn collision_misses_when_centre_is_outside() {
    let p = human_paddle(50, 100, 10, 100);
    let mut b = Ball { x: 65, y: 150, vx: -2, vy: 1, radius: 8 };
    b.check_collision_with(&p);
    assert_eq!(b.vx, -2);
}

#[test]
fn exit_left_resets_to_field_centre() {
    let cfg = Config::standard();
    let mut b = Ball { x: 0, y: 80, vx: -3, vy: 1, radius: 8 };
    b.update(&cfg);
    // The vertical half of the frame still runs after the reset, so the
    // centre has already advanced one step from the field midpoint.
    assert_eq!(b.x, 525);
    assert!(b.vx == 3 || b.vx == -3);
    assert!(b.vy == 3 || b.vy == -3);
    assert_eq!(b.y, 400 + b.vy);
}

#[test]
fn exit_right_resets_to_field_centre() {
    let cfg = Config::standard();
    let mut b = Ball { x: 1050, y: 400, vx: 3, vy: 3, radius: 8 };
    b.move_x(&cfg);
    assert_eq!(b.x, 525);
    assert_eq!(b.y, 400);
    assert!(b.vx == 3 || b.vx == -3);
    assert!(b.vy == 3 || b.vy == -3);
}

#[test]
fn reset_velocity_is_diagonal_at_full_speed() {
    let cfg = Config::standard();
    let mut b = Ball { x: 525, y: 400, vx: 0, vy: 0, radius: 8 };
    b.reset_velocity(&cfg);
    assert!(b.vx == 3 || b.vx == -3);
    assert!(b.vy == 3 || b.vy == -3);
    assert_eq!(b.x, 525);
    assert_eq!(b.y, 400);
}

#[test]
fn top_wall_bounce_undoes_step_and_reflects() {
    let cfg = Config::standard();
    let mut b = Ball { x: 500, y: 7, vx: 3, vy: -3, radius: 8 };
    b.move_y(&cfg);
    assert_eq!(b.y, 10);
    assert_eq!(b.vy, 3);
}

#[test]
fn bottom_edge_is_crossed_before_the_bounce() {
    let cfg = Config::standard();
    // At 805 the centre is already below the field's bottom edge at 800,
    // yet still inside the asymmetric free band, so the ball flies on.
    let mut b = Ball { x: 500, y: 805, vx: 3, vy: 3, radius: 8 };
    b.move_y(&cfg);
    assert_eq!(b.y, 808);
    assert_eq!(b.vy, 3);
    // One radius past the edge the bounce finally triggers.
    let mut b = Ball { x: 500, y: 809, vx: 3, vy: 3, radius: 8 };
    b.move_y(&cfg);
    assert_eq!(b.y, 806);
    assert_eq!(b.vy, -3);
}

#[test]
fn human_paddle_follows_up_signal() {
    let cfg = Config::standard();
    let ball = Ball { x: 525, y: 400, vx: 3, vy: 3, radius: 8 };
    let mut p = human_paddle(20, 300, 10, 120);
    p.update(&ball, Input { up: true, down: false }, &cfg);
    assert_eq!(p.y, 290);
}

#[test]
fn up_wins_when_both_signals_are_held() {
    let cfg = Config::standard();
    let ball = Ball { x: 525, y: 400, vx: 3, vy: 3, radius: 8 };
    let mut p = human_paddle(20, 300, 10, 120);
    p.update(&ball, Input { up: true, down: true }, &cfg);
    assert_eq!(p.y, 290);
}

#[test]
fn human_paddle_blocked_at_margin_stays_put() {
    let cfg = Config::standard();
    let ball = Ball { x: 525, y: 400, vx: 3, vy: 3, radius: 8 };
    let mut p = human_paddle(20, 5, 10, 120);
    p.update(&ball, Input { up: true, down: false }, &cfg);
    assert_eq!(p.y, 5);
}

#[test]
fn bot_steps_toward_the_ball() {
    let cfg = Config::standard();
    // direction = 500 - 120/2 - 300 = 140, outside the deadband.
    let ball = Ball { x: 525, y: 500, vx: 3, vy: 3, radius: 8 };
    let mut p = bot_paddle(1020, 300, 10, 120);
    p.update(&ball, no_input(), &cfg);
    assert_eq!(p.y, 310);
}

#[test]
fn bot_steps_up_when_ball_is_above() {
    let cfg = Config::standard();
    // direction = 200 - 60 - 300 = -160, outside the deadband.
    let ball = Ball { x: 525, y: 200, vx: 3, vy: 3, radius: 8 };
    let mut p = bot_paddle(1020, 300, 10, 120);
    p.update(&ball, no_input(), &cfg);
    assert_eq!(p.y, 290);
}

#[test]
fn bot_holds_still_inside_the_deadband() {
    let cfg = Config::standard();
    // direction = 360 - 60 - 300 = 0, inside the deadband.
    let ball = Ball { x: 525, y: 360, vx: 3, vy: 3, radius: 8 };
    let mut p = bot_paddle(1020, 300, 10, 120);
    p.update(&ball, no_input(), &cfg);
    assert_eq!(p.y, 300);
    // direction = 2 and -2: still inside.
    let ball = Ball { x: 525, y: 362, vx: 3, vy: 3, radius: 8 };
    p.update(&ball, no_input(), &cfg);
    assert_eq!(p.y, 300);
    let ball = Ball { x: 525, y: 358, vx: 3, vy: 3, radius: 8 };
    p.update(&ball, no_input(), &cfg);
    assert_eq!(p.y, 300);
}

#[test]
fn bot_reacts_at_the_deadband_edge() {
    let cfg = Config::standard();
    // direction = 363 - 60 - 300 = 3: just outside the deadband.
    let ball = Ball { x: 525, y: 363, vx: 3, vy: 3, radius: 8 };
    let mut p = bot_paddle(1020, 300, 10, 120);
    p.update(&ball, no_input(), &cfg);
    assert_eq!(p.y, 310);
}

#[test]
fn new_game_places_everything() {
    let g = GameState::new(Config::standard());
    assert_eq!(g.player_one.x, 20);
    assert_eq!(g.player_one.y, 300);
    assert_eq!(g.player_one.w, 10);
    assert_eq!(g.player_one.h, 120);
    assert!(matches!(g.player_one.controller, Controller::Human));
    assert_eq!(g.player_two.x, 1020);
    assert_eq!(g.player_two.y, 300);
    assert!(matches!(g.player_two.controller, Controller::Bot));
    assert_eq!(g.ball.x, 525);
    assert_eq!(g.ball.y, 400);
    assert_eq!(g.ball.radius, 8);
    assert!(g.ball.vx == 3 || g.ball.vx == -3);
    assert!(g.ball.vy == 3 || g.ball.vy == -3);
}

#[test]
fn one_frame_moves_ball_and_both_paddles() {
    let mut g = GameState::new(Config::standard());
    g.ball = Ball { x: 525, y: 400, vx: 3, vy: 3, radius: 8 };
    g.update(Input { up: true, down: false });
    // Ball: x advances to 528, y to 403, far from both paddles.
    assert_eq!(g.ball.x, 528);
    assert_eq!(g.ball.y, 403);
    assert_eq!(g.ball.vx, 3);
    assert_eq!(g.ball.vy, 3);
    // Human paddle follows the held signal.
    assert_eq!(g.player_one.y, 290);
    // Bot sees the ball at 403: direction = 403 - 60 - 300 = 43.
    assert_eq!(g.player_two.y, 310);
}

#[test]
fn frame_collision_reflects_ball_off_paddle() {
    let mut g = GameState::new(Config::standard());
    // After the move the ball's centre sits strictly inside paddle one.
    g.player_one = human_paddle(20, 300, 10, 120);
    g.ball = Ball { x: 28, y: 350, vx: -3, vy: 3, radius: 8 };
    g.update(no_input());
    assert_eq!(g.ball.x, 25);
    assert_eq!(g.ball.y, 353);
    assert_eq!(g.ball.vx, 3);
    assert_eq!(g.ball.vy, 3);
}
