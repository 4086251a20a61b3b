//! The ball: a circle with a per-axis velocity that bounces off the top
//! and bottom walls, reverses horizontally on paddle contact, and resets
//! to the field centre with a random diagonal velocity when it leaves the
//! field on the left or the right.

use vstd::prelude::*;
use crate::config::{Config, ConfigModel, config_wf};
use crate::paddle::{Paddle, PaddleModel};

verus! {

/// The mathematical view of a [`Ball`]: centre, velocity and radius.
pub ghost struct BallModel {
    pub x: int,
    pub y: int,
    pub vx: int,
    pub vy: int,
    pub radius: int,
}

/// A ball: a circle whose centre is at `(x, y)`, moving by `(vx, vy)`
/// each frame.
pub struct Ball {
    pub x: i32,
    pub y: i32,
    pub vx: i32,
    pub vy: i32,
    pub radius: i32,
}

impl View for Ball {
    type V = BallModel;

    open spec fn view(&self) -> BallModel {
        BallModel {
            x: self.x as int,
            y: self.y as int,
            vx: self.vx as int,
            vy: self.vy as int,
            radius: self.radius as int,
        }
    }
}

/// The vertical band in which the ball flies freely: a centre height `y`
/// from `r` up to `window_h + r`. Both bounds subtract the radius from
/// the centre, so the test is asymmetric: at the top the ball turns as
/// soon as it touches the edge, while at the bottom it crosses the edge
/// by a full diameter before turning back.
pub open spec fn in_y_band(y: int, r: int, c: ConfigModel) -> bool {
    r <= y && y <= c.window_h + r
}

/// A ball is well formed when its speed on each axis is at most the
/// configured ball speed, its centre is horizontally inside the field,
/// its radius is the configured one, and vertically it is either in the
/// free band or one (undoable) step away from it.
pub open spec fn ball_wf(b: BallModel, c: ConfigModel) -> bool {
    &&& -c.ball_speed <= b.vx <= c.ball_speed
    &&& -c.ball_speed <= b.vy <= c.ball_speed
    &&& 0 <= b.x <= c.window_w
    &&& b.radius == c.ball_radius
    &&& (in_y_band(b.y, b.radius, c) || in_y_band(b.y - b.vy, b.radius, c))
}

/// `speed` signed by a coin flip: `true` picks the positive direction.
pub open spec fn flip_speed(f: bool, speed: int) -> int {
    if f {
        speed
    } else {
        -speed
    }
}

/// The ball after the horizontal half of a frame: the centre advances by
/// `vx`; when that leaves the field, the ball is reset to the field
/// centre with the diagonal velocity picked by the two coin flips.
pub open spec fn ball_move_x(b: BallModel, c: ConfigModel, fx: bool, fy: bool) -> BallModel {
    let nx = b.x + b.vx;
    if nx < 0 || nx > c.window_w {
        (BallModel {
            x: c.window_w / 2,
            y: c.window_h / 2,
            vx: flip_speed(fx, c.ball_speed),
            vy: flip_speed(fy, c.ball_speed),
            radius: b.radius,
        })
    } else {
        (BallModel { x: nx, ..b })
    }
}

/// The ball after the vertical half of a frame: outside the free band the
/// previous vertical step is undone and the vertical velocity reflected;
/// inside it the centre advances by `vy`.
pub open spec fn ball_move_y(b: BallModel, c: ConfigModel) -> BallModel {
    if !in_y_band(b.y, b.radius, c) {
        (BallModel { y: b.y - b.vy, vy: -b.vy, ..b })
    } else {
        (BallModel { y: b.y + b.vy, ..b })
    }
}

/// One whole frame of the ball: the horizontal half, then the vertical
/// half, in that order.
pub open spec fn ball_step(b: BallModel, c: ConfigModel, fx: bool, fy: bool) -> BallModel {
    ball_move_y(ball_move_x(b, c, fx, fy), c)
}

/// Whether the paddle's rectangle strictly contains the point `(x, y)`.
pub open spec fn paddle_contains(p: PaddleModel, x: int, y: int) -> bool {
    p.x < x && x < p.x + p.w && p.y < y && y < p.y + p.h
}

/// The ball after one collision check: the horizontal velocity reflects
/// exactly when the paddle strictly contains the ball's centre; nothing
/// else changes, and the ball is not moved out of the paddle.
pub open spec fn ball_after_collision(b: BallModel, p: PaddleModel) -> BallModel {
    if paddle_contains(p, b.x, b.y) {
        (BallModel { vx: -b.vx, ..b })
    } else {
        b
    }
}

/// Relies on `rand::random::<bool>`: one draw from the thread-local
/// generator, `true` or `false` with equal probability. Nothing is
/// promised of the outcome.
#[verifier::external_body]
fn coin_flip() -> bool {
    rand::random()
}

impl Ball {
    /// Draw a fresh velocity: each axis independently gets the configured
    /// speed with a random sign, one of four diagonal directions.
    pub fn reset_velocity(&mut self, cfg: &Config)
        requires
            config_wf(cfg@),
        ensures
            final(self)@.vx == cfg@.ball_speed || final(self)@.vx == -cfg@.ball_speed,
            final(self)@.vy == cfg@.ball_speed || final(self)@.vy == -cfg@.ball_speed,
            final(self)@.x == old(self)@.x,
            final(self)@.y == old(self)@.y,
            final(self)@.radius == old(self)@.radius,
    {
        let fx = coin_flip();
        let fy = coin_flip();
        self.vx = if fx { cfg.ball_speed } else { -cfg.ball_speed };
        self.vy = if fy { cfg.ball_speed } else { -cfg.ball_speed };
    }

    /// The horizontal half of a frame: advance by `vx`, and reset to the
    /// field centre with a fresh diagonal velocity when that leaves the
    /// field.
    pub fn move_x(&mut self, cfg: &Config)
        requires
            config_wf(cfg@),
            ball_wf(old(self)@, cfg@),
        ensures
            ball_wf(final(self)@, cfg@),
            exists|fx: bool, fy: bool| final(self)@ == ball_move_x(old(self)@, cfg@, fx, fy),
    {
        let nx = self.x + self.vx;
        if nx < 0 || nx > cfg.window_w {
            self.x = cfg.window_w / 2;
            self.y = cfg.window_h / 2;
            self.reset_velocity(cfg);
            proof {
                let fx: bool = self@.vx == cfg@.ball_speed;
                let fy: bool = self@.vy == cfg@.ball_speed;
                assert(self@ == ball_move_x(old(self)@, cfg@, fx, fy));
            }
        } else {
            self.x = nx;
            proof {
                assert(self@ == ball_move_x(old(self)@, cfg@, true, true));
            }
        }
    }

    /// The vertical half of a frame: advance by `vy` inside the free
    /// band; outside it, undo the previous vertical step and reflect the
    /// vertical velocity.
    pub fn move_y(&mut self, cfg: &Config)
        requires
            config_wf(cfg@),
            ball_wf(old(self)@, cfg@),
        ensures
            ball_wf(final(self)@, cfg@),
            final(self)@ == ball_move_y(old(self)@, cfg@),
    {
        if self.y - self.radius < 0 || self.y - self.radius > cfg.window_h {
            self.y = self.y - self.vy;
            self.vy = -self.vy;
        } else {
            self.y = self.y + self.vy;
        }
    }

    /// One collision check: reflect the horizontal velocity exactly when
    /// the paddle's rectangle strictly contains the ball's centre.
    pub fn check_collision_with(&mut self, paddle: &Paddle)
        requires
            0 <= paddle@.x <= 1000000,
            0 <= paddle@.w <= 1000000,
            -1000000 <= paddle@.y <= 1000000,
            0 <= paddle@.h <= 1000000,
            -1000000 <= old(self)@.vx <= 1000000,
        ensures
            final(self)@ == ball_after_collision(old(self)@, paddle@),
    {
        if paddle.x < self.x && self.x < paddle.x + paddle.w {
            if paddle.y < self.y && self.y < paddle.y + paddle.h {
                self.vx = -self.vx;
            }
        }
    }

    /// One whole frame of the ball: the horizontal half, then the
    /// vertical half.
    pub fn update(&mut self, cfg: &Config)
        requires
            config_wf(cfg@),
            ball_wf(old(self)@, cfg@),
        ensures
            ball_wf(final(self)@, cfg@),
            exists|fx: bool, fy: bool| final(self)@ == ball_step(old(self)@, cfg@, fx, fy),
    {
        self.move_x(cfg);
        let ghost mid: BallModel = self@;
        self.move_y(cfg);
        proof {
            let (fx, fy): (bool, bool) = choose|fx: bool, fy: bool|
                mid == ball_move_x(old(self)@, cfg@, fx, fy);
            assert(self@ == ball_step(old(self)@, cfg@, fx, fy));
        }
    }
}

/// Whenever the horizontal move of a frame carries the ball's centre out
/// of the field, the ball comes back at the field centre, and on each
/// axis its fresh velocity is the configured speed with one sign or the
/// other, whatever the coin flips were.
pub proof fn lemma_exit_resets_to_center(b: BallModel, c: ConfigModel, fx: bool, fy: bool)
    requires
        b.x + b.vx < 0 || b.x + b.vx > c.window_w,
    ensures
        ball_move_x(b, c, fx, fy).x == c.window_w / 2,
        ball_move_x(b, c, fx, fy).y == c.window_h / 2,
        ball_move_x(b, c, fx, fy).vx == c.ball_speed || ball_move_x(b, c, fx, fy).vx == -c.ball_speed,
        ball_move_x(b, c, fx, fy).vy == c.ball_speed || ball_move_x(b, c, fx, fy).vy == -c.ball_speed,
{
}

} // verus!
