use vstd::prelude::*;

use crate::ball::Ball;
use crate::config::{Config, MAX_DIM, MAX_SPEED};

verus! {

/// The state of a paddle, together with the height of its court.
pub ghost struct PaddleModel {
    pub x: int,
    pub y: int,
    pub width: int,
    pub height: int,
    pub speed: int,
    pub court_height: int,
}

impl PaddleModel {
    /// Sizes within bounds, and the paddle wholly inside the court height.
    pub open spec fn wf(self) -> bool {
        &&& -MAX_DIM <= self.x <= MAX_DIM
        &&& 1 <= self.width <= MAX_DIM
        &&& 1 <= self.height <= self.court_height <= MAX_DIM
        &&& 0 <= self.speed <= MAX_SPEED
        &&& 0 <= self.y
        &&& self.y + self.height <= self.court_height
    }

    pub open spec fn with_y(self, y: int) -> PaddleModel {
        PaddleModel { y, ..self }
    }

    /// Moving up is allowed when the top edge stays strictly inside the court.
    pub open spec fn can_move_up(self) -> bool {
        self.y - self.speed > 0
    }

    /// Moving down is allowed when the bottom edge stays strictly above the
    /// court's bottom.
    pub open spec fn can_move_down(self) -> bool {
        self.y + self.height + self.speed < self.court_height
    }

    /// One tick under held keys: first up, then down, each on its own.
    pub open spec fn step(self, up: bool, down: bool) -> PaddleModel {
        let p = if up && self.can_move_up() {
            self.with_y(self.y - self.speed)
        } else {
            self
        };
        if down && p.can_move_down() {
            p.with_y(p.y + p.speed)
        } else {
            p
        }
    }

    /// The paddle after one tick per pair of (up held, down held) signals.
    pub open spec fn run(self, inputs: Seq<(bool, bool)>) -> PaddleModel
        decreases inputs.len(),
    {
        if inputs.len() == 0 {
            self
        } else {
            self.step(inputs[0].0, inputs[0].1).run(inputs.drop_first())
        }
    }

    /// The vertical centre used by the follower.
    pub open spec fn center_y(self) -> int {
        self.y + self.height / 2
    }

    /// One tick of the follower towards a ball at height `ball_y`: up when the
    /// centre lies more than `threshold` further down than the ball, else down
    /// when it lies more than `threshold` further up, each only where the move
    /// keeps the paddle inside the court.
    pub open spec fn follow(self, ball_y: int, threshold: int) -> PaddleModel {
        if self.center_y() - ball_y > threshold && self.can_move_up() {
            self.with_y(self.y - self.speed)
        } else if ball_y - self.center_y() > threshold && self.can_move_down() {
            self.with_y(self.y + self.speed)
        } else {
            self
        }
    }
}

/// Whatever keys are held tick after tick, a paddle that starts inside the
/// court stays inside it: its top never goes above zero and its bottom never
/// below the court height.
pub proof fn lemma_paddle_stays_in_court(p: PaddleModel, inputs: Seq<(bool, bool)>)
    requires
        p.wf(),
    ensures
        p.run(inputs).wf(),
        0 <= p.run(inputs).y,
        p.run(inputs).y + p.height <= p.court_height,
        p.run(inputs).height == p.height,
    decreases inputs.len(),
{
    if inputs.len() > 0 {
        lemma_paddle_stays_in_court(p.step(inputs[0].0, inputs[0].1), inputs.drop_first());
    }
}

/// A paddle: its top-left corner, its size, its speed in pixels per tick,
/// and the height of its court.
#[derive(Debug)]
pub struct Paddle {
    x: i32,
    y: i32,
    width: i32,
    height: i32,
    speed: i32,
    court_height: i32,
}

impl View for Paddle {
    type V = PaddleModel;

    closed spec fn view(&self) -> PaddleModel {
        PaddleModel {
            x: self.x as int,
            y: self.y as int,
            width: self.width as int,
            height: self.height as int,
            speed: self.speed as int,
            court_height: self.court_height as int,
        }
    }
}

impl Paddle {
    pub open spec fn wf(&self) -> bool {
        self@.wf()
    }

    /// A paddle of the configured size and speed with its top-left corner at
    /// (`x`, `y`).
    pub fn new(x: i32, y: i32, config: &Config) -> (p: Paddle)
        requires
            config.wf(),
            -MAX_DIM <= x <= MAX_DIM,
            0 <= y <= config.court_height - config.paddle_height,
        ensures
            p@ == (PaddleModel {
                x: x as int,
                y: y as int,
                width: config.paddle_width as int,
                height: config.paddle_height as int,
                speed: config.paddle_speed as int,
                court_height: config.court_height as int,
            }),
            p.wf(),
    {
        Paddle {
            x,
            y,
            width: config.paddle_width,
            height: config.paddle_height,
            speed: config.paddle_speed,
            court_height: config.court_height,
        }
    }

    pub fn x(&self) -> (r: i32)
        ensures
            r == self@.x,
    {
        self.x
    }

    pub fn y(&self) -> (r: i32)
        ensures
            r == self@.y,
    {
        self.y
    }

    pub fn width(&self) -> (r: i32)
        ensures
            r == self@.width,
    {
        self.width
    }

    pub fn height(&self) -> (r: i32)
        ensures
            r == self@.height,
    {
        self.height
    }

    pub fn speed(&self) -> (r: i32)
        ensures
            r == self@.speed,
    {
        self.speed
    }

    /// One tick under the held keys: moves up by its speed if "up" is held
    /// and the top edge stays above zero, then down by its speed if "down" is
    /// held and the bottom edge stays above the court's bottom.
    pub fn update(&mut self, up_held: bool, down_held: bool)
        requires
            old(self).wf(),
        ensures
            final(self)@ == old(self)@.step(up_held, down_held),
            final(self).wf(),
    {
        if up_held && self.y - self.speed > 0 {
            self.y = self.y - self.speed;
        }
        if down_held && self.y + self.height + self.speed < self.court_height {
            self.y = self.y + self.speed;
        }
    }

    /// One tick of the follower towards a ball at height `ball_y`.
    fn follow(&mut self, ball_y: i32, threshold: i32)
        requires
            old(self).wf(),
            -2 * MAX_DIM <= ball_y <= 2 * MAX_DIM,
            0 <= threshold <= MAX_DIM,
        ensures
            final(self)@ == old(self)@.follow(ball_y as int, threshold as int),
            final(self).wf(),
    {
        let center_y = self.y + self.height / 2;
        if center_y - ball_y > threshold && self.y - self.speed > 0 {
            self.y = self.y - self.speed;
        } else if ball_y - center_y > threshold && self.y + self.height + self.speed
            < self.court_height {
            self.y = self.y + self.speed;
        }
    }
}

/// A paddle driven by the ball's height instead of keys: it stays put while
/// the ball is within `threshold` pixels of its centre, which lets it be beaten.
#[derive(Debug)]
pub struct CPUPaddle {
    base: Paddle,
    ball_dist_thres: i32,
}

impl CPUPaddle {
    pub closed spec fn paddle_model(&self) -> PaddleModel {
        self.base@
    }

    pub closed spec fn threshold_model(&self) -> int {
        self.ball_dist_thres as int
    }

    pub open spec fn wf(&self) -> bool {
        self.paddle_model().wf() && 0 <= self.threshold_model() <= MAX_DIM
    }

    /// A follower of the configured size, speed and dead zone with its
    /// top-left corner at (`x`, `y`).
    pub fn new(x: i32, y: i32, config: &Config) -> (p: CPUPaddle)
        requires
            config.wf(),
            -MAX_DIM <= x <= MAX_DIM,
            0 <= y <= config.court_height - config.paddle_height,
        ensures
            p.paddle_model() == (PaddleModel {
                x: x as int,
                y: y as int,
                width: config.paddle_width as int,
                height: config.paddle_height as int,
                speed: config.paddle_speed as int,
                court_height: config.court_height as int,
            }),
            p.threshold_model() == config.reaction_threshold,
            p.wf(),
    {
        CPUPaddle { base: Paddle::new(x, y, config), ball_dist_thres: config.reaction_threshold }
    }

    /// The paddle it drives.
    pub fn paddle(&self) -> (r: &Paddle)
        ensures
            r@ == self.paddle_model(),
    {
        &self.base
    }

    /// The half-width of its dead zone.
    pub fn threshold(&self) -> (r: i32)
        ensures
            r == self.threshold_model(),
    {
        self.ball_dist_thres
    }

    /// One tick towards the ball's current height: up by its speed when its
    /// centre lies more than the threshold further down than the ball, else
    /// down by its speed when more than the threshold further up, each only
    /// where the move keeps the paddle inside the court. Within the dead zone
    /// it does not move.
    pub fn update(&mut self, ball: &Ball)
        requires
            old(self).wf(),
            ball.wf(),
        ensures
            final(self).paddle_model() == old(self).paddle_model().follow(
                ball@.y,
                old(self).threshold_model(),
            ),
            final(self).threshold_model() == old(self).threshold_model(),
            final(self).wf(),
            crate::config::abs(ball@.y - old(self).paddle_model().center_y())
                <= old(self).threshold_model() ==> final(self).paddle_model() == old(
                self,
            ).paddle_model(),
    {
        let ball_y = ball.y();
        self.base.follow(ball_y, self.ball_dist_thres);
    }
}

} // verus!
