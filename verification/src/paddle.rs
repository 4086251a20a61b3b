//! Paddles: vertical-only rectangles steered each frame either by the two
//! human input signals or by a proportional bot controller with a deadband.

use vstd::prelude::*;
use crate::config::{Config, ConfigModel, config_wf};
use crate::ball::{Ball, ball_wf};

verus! {

/// Which strategy decides a paddle's vertical move each frame.
#[derive(Clone, Copy, Debug)]
pub enum Controller {
    /// The paddle follows the two input signals read once per frame.
    Human,
    /// The paddle follows the ball with a proportional controller.
    Bot,
}

/// The two logical input signals read once per frame. When both are held,
/// only `up` takes effect.
#[derive(Clone, Copy, Debug)]
pub struct Input {
    pub up: bool,
    pub down: bool,
}

/// The mathematical view of a [`Paddle`]: its top-left corner, its size,
/// and whether the bot steers it.
pub ghost struct PaddleModel {
    pub x: int,
    pub y: int,
    pub w: int,
    pub h: int,
    pub bot: bool,
}

/// A paddle: a rectangle of size `w` by `h` whose top-left corner is at
/// `(x, y)`. Only `y` ever changes after construction.
pub struct Paddle {
    pub x: i32,
    pub y: i32,
    pub w: i32,
    pub h: i32,
    pub controller: Controller,
}

impl View for Paddle {
    type V = PaddleModel;

    open spec fn view(&self) -> PaddleModel {
        PaddleModel {
            x: self.x as int,
            y: self.y as int,
            w: self.w as int,
            h: self.h as int,
            bot: self.controller is Bot,
        }
    }
}

/// A paddle is well formed when its size is positive and bounded, its
/// horizontal position bounded, and it keeps the configured margin from
/// both the top and the bottom edge of the field.
pub open spec fn paddle_wf(p: PaddleModel, c: ConfigModel) -> bool {
    &&& 0 <= p.x <= 1000000
    &&& 0 < p.w <= 1000000
    &&& 0 < p.h <= 1000000
    &&& c.margin <= p.y
    &&& p.y + p.h + c.margin <= c.window_h
}

/// The paddle after asking to move vertically by `amount`: the move is
/// wholly undone, not clamped, when it would bring the paddle within the
/// margin of the top or the bottom edge.
pub open spec fn paddle_move_y(p: PaddleModel, amount: int, c: ConfigModel) -> PaddleModel {
    let ny = p.y + amount;
    if ny < c.margin || ny + p.h + c.margin > c.window_h {
        p
    } else {
        (PaddleModel { y: ny, ..p })
    }
}

/// The signed distance from the paddle's centre to the ball's centre
/// height: positive when the ball is below the paddle's midpoint.
pub open spec fn bot_direction(p: PaddleModel, ball_y: int) -> int {
    ball_y - p.h / 2 - p.y
}

/// One frame of the bot controller: hold still inside the deadband of
/// three pixels around the ball, otherwise take one fixed-speed step
/// toward the ball.
pub open spec fn paddle_bot_step(p: PaddleModel, ball_y: int, c: ConfigModel) -> PaddleModel {
    let d = bot_direction(p, ball_y);
    if -3 < d && d < 3 {
        p
    } else if d > 0 {
        paddle_move_y(p, c.paddle_speed, c)
    } else {
        paddle_move_y(p, -c.paddle_speed, c)
    }
}

/// One frame of a paddle: the bot follows the ball; a human paddle moves
/// one step up or down while the matching signal is held, `up` first.
pub open spec fn paddle_step(p: PaddleModel, ball_y: int, input: Input, c: ConfigModel) -> PaddleModel {
    if p.bot {
        paddle_bot_step(p, ball_y, c)
    } else if input.up {
        paddle_move_y(p, -c.paddle_speed, c)
    } else if input.down {
        paddle_move_y(p, c.paddle_speed, c)
    } else {
        p
    }
}

impl Paddle {
    /// Move the paddle vertically by `amount`, undoing the whole move when
    /// it would violate the margin invariant.
    pub fn move_y(&mut self, amount: i32, cfg: &Config)
        requires
            config_wf(cfg@),
            paddle_wf(old(self)@, cfg@),
            -1000000 <= amount <= 1000000,
        ensures
            final(self)@ == paddle_move_y(old(self)@, amount as int, cfg@),
            paddle_wf(final(self)@, cfg@),
    {
        let ny = self.y + amount;
        if !(ny < cfg.margin || ny + self.h + cfg.margin > cfg.window_h) {
            self.y = ny;
        }
    }

    /// One frame of the bot controller: step toward the ball unless the
    /// ball sits within the deadband around the paddle's centre.
    pub fn run_bot(&mut self, ball: &Ball, cfg: &Config)
        requires
            config_wf(cfg@),
            paddle_wf(old(self)@, cfg@),
            ball_wf(ball@, cfg@),
        ensures
            final(self)@ == paddle_bot_step(old(self)@, ball@.y, cfg@),
            paddle_wf(final(self)@, cfg@),
    {
        let direction = ball.y - self.h / 2 - self.y;
        if -3 < direction && direction < 3 {
            return;
        }
        if direction > 0 {
            self.move_y(cfg.paddle_speed, cfg);
        } else {
            self.move_y(-cfg.paddle_speed, cfg);
        }
    }

    /// One frame of this paddle, given the ball and the input signals of
    /// the frame. A bot paddle ignores the input; a human paddle ignores
    /// the ball.
    pub fn update(&mut self, ball: &Ball, input: Input, cfg: &Config)
        requires
            config_wf(cfg@),
            paddle_wf(old(self)@, cfg@),
            ball_wf(ball@, cfg@),
        ensures
            final(self)@ == paddle_step(old(self)@, ball@.y, input, cfg@),
            paddle_wf(final(self)@, cfg@),
    {
        match self.controller {
            Controller::Bot => self.run_bot(ball, cfg),
            Controller::Human => {
                if input.up {
                    self.move_y(-cfg.paddle_speed, cfg);
                } else if input.down {
                    self.move_y(cfg.paddle_speed, cfg);
                }
            }
        }
    }
}

/// The margin invariant survives every requested move: afterwards the
/// paddle's top edge is at least `margin` below the top of the field and
/// its bottom edge at least `margin` above the bottom, whatever the
/// requested amount.
pub proof fn lemma_move_respects_margin(p: PaddleModel, amount: int, c: ConfigModel)
    requires
        config_wf(c),
        paddle_wf(p, c),
    ensures
        c.margin <= paddle_move_y(p, amount, c).y,
        paddle_move_y(p, amount, c).y + p.h <= c.window_h - c.margin,
{
}

/// Inside the deadband the bot controller is idempotent: when the
/// direction to the ball is strictly between minus three and three, the
/// paddle is left exactly as it was.
pub proof fn lemma_bot_deadband_holds_still(p: PaddleModel, ball_y: int, c: ConfigModel)
    requires
        -3 < bot_direction(p, ball_y),
        bot_direction(p, ball_y) < 3,
    ensures
        paddle_bot_step(p, ball_y, c) == p,
{
}

} // verus!
