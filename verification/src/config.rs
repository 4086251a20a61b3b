//! Fixed tunable values of the game: field dimensions, speeds, sizes and
//! the paddle margin, gathered in one immutable configuration struct that
//! is handed to the entities at construction.

use vstd::prelude::*;

verus! {

/// The mathematical view of a [`Config`]: the same fields as unbounded
/// integers, which the contracts of the library speak of.
pub ghost struct ConfigModel {
    pub window_w: int,
    pub window_h: int,
    pub paddle_speed: int,
    pub paddle_w: int,
    pub paddle_h: int,
    pub paddle_offset: int,
    pub paddle_start_y: int,
    pub margin: int,
    pub ball_speed: int,
    pub ball_radius: int,
}

/// All tunable values of the game, fixed at construction time.
///
/// `window_w` and `window_h` are the pixel dimensions of the play field.
/// `paddle_speed` is the distance a paddle moves in one frame,
/// `paddle_offset` the horizontal inset of each paddle from its field edge,
/// `paddle_start_y` the vertical position both paddles start at, and
/// `margin` the minimum distance a paddle keeps from the top and bottom
/// edges. `ball_speed` is the distance the ball covers per frame on each
/// axis and `ball_radius` its drawn radius.
#[derive(Clone, Copy, Debug)]
pub struct Config {
    pub window_w: i32,
    pub window_h: i32,
    pub paddle_speed: i32,
    pub paddle_w: i32,
    pub paddle_h: i32,
    pub paddle_offset: i32,
    pub paddle_start_y: i32,
    pub margin: i32,
    pub ball_speed: i32,
    pub ball_radius: i32,
}

impl View for Config {
    type V = ConfigModel;

    open spec fn view(&self) -> ConfigModel {
        ConfigModel {
            window_w: self.window_w as int,
            window_h: self.window_h as int,
            paddle_speed: self.paddle_speed as int,
            paddle_w: self.paddle_w as int,
            paddle_h: self.paddle_h as int,
            paddle_offset: self.paddle_offset as int,
            paddle_start_y: self.paddle_start_y as int,
            margin: self.margin as int,
            ball_speed: self.ball_speed as int,
            ball_radius: self.ball_radius as int,
        }
    }
}

/// A configuration is well formed when every dimension is positive and
/// small enough for the coordinate arithmetic of a frame to stay well
/// inside `i32`, the paddles fit between the margins at their starting
/// position, and the ball fits vertically inside the field.
pub open spec fn config_wf(c: ConfigModel) -> bool {
    &&& 0 < c.window_w <= 1000000
    &&& 0 < c.window_h <= 1000000
    &&& 0 < c.paddle_speed <= 1000000
    &&& 0 < c.paddle_w <= 1000000
    &&& 0 < c.paddle_h <= 1000000
    &&& 0 <= c.paddle_offset <= 1000000
    &&& c.paddle_offset + c.paddle_w <= c.window_w
    &&& 0 <= c.margin <= 1000000
    &&& c.margin <= c.paddle_start_y
    &&& c.paddle_start_y + c.paddle_h + c.margin <= c.window_h
    &&& 0 < c.ball_speed <= 1000000
    &&& 0 <= c.ball_radius <= 1000000
    &&& 2 * c.ball_radius <= c.window_h
}

impl Config {
    /// The standard game: a 1050 by 800 field, paddles of 10 by 120 inset
    /// 20 pixels from their edge, and a ball of speed 3.
    pub fn standard() -> (c: Config)
        ensures
            config_wf(c@),
            c@ == (ConfigModel {
                window_w: 1050,
                window_h: 800,
                paddle_speed: 10,
                paddle_w: 10,
                paddle_h: 120,
                paddle_offset: 20,
                paddle_start_y: 300,
                margin: 1,
                ball_speed: 3,
                ball_radius: 8,
            }),
    {
        Config {
            window_w: 1050,
            window_h: 800,
            paddle_speed: 10,
            paddle_w: 10,
            paddle_h: 120,
            paddle_offset: 20,
            paddle_start_y: 300,
            margin: 1,
            ball_speed: 3,
            ball_radius: 8,
        }
    }
}

} // verus!
