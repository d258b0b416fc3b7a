use vstd::prelude::*;

verus! {

/// Largest court side, paddle side or ball radius that a configuration may hold.
pub const MAX_DIM: i32 = 1_000_000;

/// Largest per-tick speed, in pixels, of the ball or of a paddle.
pub const MAX_SPEED: i32 = 1_000_000;

/// Horizontal gap between a paddle and the court edge it guards.
pub const PADDLE_MARGIN: i32 = 10;

/// The fixed parameters of a match. Every component takes what it needs from
/// here when it is built.
#[derive(Clone, Copy, Debug, PartialEq, Eq)]
pub struct Config {
    pub court_width: i32,
    pub court_height: i32,
    pub ticks_per_second: u32,
    pub ball_speed_x: i32,
    pub ball_speed_y: i32,
    pub ball_radius: i32,
    pub paddle_width: i32,
    pub paddle_height: i32,
    pub paddle_speed: i32,
    pub reaction_threshold: i32,
}

pub open spec fn abs(v: int) -> int {
    if v < 0 { -v } else { v }
}

impl Config {
    /// A configuration the components can run on: positive sizes within
    /// bounds, a ball that fits the court, paddles that fit beside each other
    /// and within the court height, and a non-negative dead zone.
    pub open spec fn wf(&self) -> bool {
        &&& 1 <= self.court_width <= MAX_DIM
        &&& 1 <= self.court_height <= MAX_DIM
        &&& 1 <= self.ball_radius
        &&& 2 * self.ball_radius <= self.court_width
        &&& 2 * self.ball_radius <= self.court_height
        &&& abs(self.ball_speed_x as int) <= MAX_SPEED
        &&& abs(self.ball_speed_y as int) <= MAX_SPEED
        &&& 1 <= self.paddle_width
        &&& 2 * (self.paddle_width + PADDLE_MARGIN) <= self.court_width
        &&& 1 <= self.paddle_height <= self.court_height
        &&& 0 <= self.paddle_speed <= MAX_SPEED
        &&& 0 <= self.reaction_threshold <= MAX_DIM
    }

    /// Whether the components can run on this configuration.
    pub fn is_valid(&self) -> (r: bool)
        ensures
            r == self.wf(),
    {
        let sx = self.ball_speed_x;
        let sy = self.ball_speed_y;
        1 <= self.court_width && self.court_width <= MAX_DIM && 1 <= self.court_height
            && self.court_height <= MAX_DIM && 1 <= self.ball_radius && self.ball_radius
            <= self.court_width / 2 && self.ball_radius <= self.court_height / 2 && -MAX_SPEED
            <= sx && sx <= MAX_SPEED && -MAX_SPEED <= sy && sy <= MAX_SPEED && 1
            <= self.paddle_width && self.paddle_width <= self.court_width / 2 - PADDLE_MARGIN
            && 1 <= self.paddle_height && self.paddle_height <= self.court_height && 0
            <= self.paddle_speed && self.paddle_speed <= MAX_SPEED && 0 <= self.reaction_threshold
            && self.reaction_threshold <= MAX_DIM
    }

    /// The classic setup: an 800 by 480 court at 60 ticks per second, a ball
    /// of radius 20 moving 5 pixels per tick on each axis, 20 by 120 paddles
    /// moving 6 pixels per tick, and a dead zone of 5 pixels.
    pub fn standard() -> (c: Config)
        ensures
            c.court_width == 800,
            c.court_height == 480,
            c.ticks_per_second == 60,
            c.ball_speed_x == 5,
            c.ball_speed_y == 5,
            c.ball_radius == 20,
            c.paddle_width == 20,
            c.paddle_height == 120,
            c.paddle_speed == 6,
            c.reaction_threshold == 5,
            c.wf(),
    {
        Config {
            court_width: 800,
            court_height: 480,
            ticks_per_second: 60,
            ball_speed_x: 5,
            ball_speed_y: 5,
            ball_radius: 20,
            paddle_width: 20,
            paddle_height: 120,
            paddle_speed: 6,
            reaction_threshold: 5,
        }
    }
}

} // verus!
