//! The game state: one human paddle, one bot paddle and the ball, with
//! the per-frame update that moves the ball, steers both paddles on the
//! ball's new position, and then runs both collision checks.

use vstd::prelude::*;
use crate::ball::{Ball, BallModel, ball_after_collision, ball_step, ball_wf};
use crate::config::{Config, ConfigModel, config_wf};
use crate::paddle::{Controller, Input, Paddle, PaddleModel, paddle_step, paddle_wf};

verus! {

/// The mathematical view of a [`GameState`].
pub ghost struct GameModel {
    pub config: ConfigModel,
    pub player_one: PaddleModel,
    pub player_two: PaddleModel,
    pub ball: BallModel,
}

/// The whole simulation: the configuration, the human paddle on the
/// left, the bot paddle on the right, and the ball.
pub struct GameState {
    pub config: Config,
    pub player_one: Paddle,
    pub player_two: Paddle,
    pub ball: Ball,
}

impl View for GameState {
    type V = GameModel;

    open spec fn view(&self) -> GameModel {
        GameModel {
            config: self.config@,
            player_one: self.player_one@,
            player_two: self.player_two@,
            ball: self.ball@,
        }
    }
}

/// A game is well formed when its configuration is and both paddles and
/// the ball are well formed under it.
pub open spec fn game_wf(g: GameModel) -> bool {
    &&& config_wf(g.config)
    &&& paddle_wf(g.player_one, g.config)
    &&& paddle_wf(g.player_two, g.config)
    &&& ball_wf(g.ball, g.config)
}

/// The human paddle at game start: inset from the left edge, at the
/// configured starting height.
pub open spec fn initial_human_paddle(c: ConfigModel) -> PaddleModel {
    PaddleModel {
        x: c.paddle_offset,
        y: c.paddle_start_y,
        w: c.paddle_w,
        h: c.paddle_h,
        bot: false,
    }
}

/// The bot paddle at game start: inset from the right edge, at the
/// configured starting height.
pub open spec fn initial_bot_paddle(c: ConfigModel) -> PaddleModel {
    PaddleModel {
        x: c.window_w - c.paddle_offset - c.paddle_w,
        y: c.paddle_start_y,
        w: c.paddle_w,
        h: c.paddle_h,
        bot: true,
    }
}

/// One whole frame, given the frame's input signals and the two coin
/// flips a reset would use: the ball moves first, both paddles then react
/// to the ball's new position, and finally the ball is checked against
/// paddle one, then paddle two.
pub open spec fn game_step(g: GameModel, input: Input, fx: bool, fy: bool) -> GameModel {
    let ball1 = ball_step(g.ball, g.config, fx, fy);
    let p1 = paddle_step(g.player_one, ball1.y, input, g.config);
    let p2 = paddle_step(g.player_two, ball1.y, input, g.config);
    let ball2 = ball_after_collision(ball_after_collision(ball1, p1), p2);
    GameModel { config: g.config, player_one: p1, player_two: p2, ball: ball2 }
}

impl GameState {
    /// A fresh game: the human paddle on the left, the bot paddle on the
    /// right, both at the starting height, and the ball at the field
    /// centre with a fresh diagonal velocity.
    pub fn new(config: Config) -> (g: GameState)
        requires
            config_wf(config@),
        ensures
            game_wf(g@),
            g@.config == config@,
            g@.player_one == initial_human_paddle(config@),
            g@.player_two == initial_bot_paddle(config@),
            g@.ball.x == config@.window_w / 2,
            g@.ball.y == config@.window_h / 2,
            g@.ball.vx == config@.ball_speed || g@.ball.vx == -config@.ball_speed,
            g@.ball.vy == config@.ball_speed || g@.ball.vy == -config@.ball_speed,
            g@.ball.radius == config@.ball_radius,
    {
        let mut ball = Ball {
            x: config.window_w / 2,
            y: config.window_h / 2,
            vx: config.ball_speed,
            vy: config.ball_speed,
            radius: config.ball_radius,
        };
        ball.reset_velocity(&config);
        GameState {
            player_one: Paddle {
                x: config.paddle_offset,
                y: config.paddle_start_y,
                w: config.paddle_w,
                h: config.paddle_h,
                controller: Controller::Human,
            },
            player_two: Paddle {
                x: config.window_w - config.paddle_offset - config.paddle_w,
                y: config.paddle_start_y,
                w: config.paddle_w,
                h: config.paddle_h,
                controller: Controller::Bot,
            },
            ball,
            config,
        }
    }

    /// One whole frame: there are coin flips (used only when the ball
    /// left the field this frame) under which the new state is exactly
    /// [`game_step`] of the old one.
    pub fn update(&mut self, input: Input)
        requires
            game_wf(old(self)@),
        ensures
            game_wf(final(self)@),
            final(self)@.config == old(self)@.config,
            exists|fx: bool, fy: bool| final(self)@ == game_step(old(self)@, input, fx, fy),
    {
        self.ball.update(&self.config);
        let ghost ball1: BallModel = self.ball@;
        self.player_one.update(&self.ball, input, &self.config);
        self.player_two.update(&self.ball, input, &self.config);
        self.ball.check_collision_with(&self.player_one);
        self.ball.check_collision_with(&self.player_two);
        proof {
            let (fx, fy): (bool, bool) = choose|fx: bool, fy: bool|
                ball1 == ball_step(old(self)@.ball, old(self)@.config, fx, fy);
            assert(self@ == game_step(old(self)@, input, fx, fy));
        }
    }
}

} // verus!
