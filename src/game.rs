use vstd::prelude::*;

use crate::ball::{opening_ball, Ball, BallModel};
use crate::collision::{ball_touches, resolve};
use crate::config::{abs, Config, PADDLE_MARGIN};
use crate::paddle::{CPUPaddle, Paddle, PaddleModel};
use crate::random::SignSource;
use crate::score::{ScoreModel, ScoreTracker};

verus! {

/// Everything a match holds, as values.
pub ghost struct MatchModel {
    pub ball: BallModel,
    pub player: PaddleModel,
    pub cpu: PaddleModel,
    pub threshold: int,
    pub scores: ScoreModel,
}

/// The ball after meeting a paddle: horizontal speed reversed on contact.
pub open spec fn bounce_off(b: BallModel, p: PaddleModel) -> BallModel {
    if ball_touches(b, p) {
        BallModel { speed_x: -b.speed_x, ..b }
    } else {
        b
    }
}

impl MatchModel {
    pub open spec fn wf(self) -> bool {
        &&& self.ball.in_play()
        &&& self.player.wf()
        &&& self.cpu.wf()
        &&& 0 <= self.threshold <= crate::config::MAX_DIM
    }

    /// Whether `next` is a possible state one tick after this one, given the
    /// keys held for the player's paddle: the ball takes its tick, the player's
    /// paddle follows the keys, the follower the ball's new height, and the
    /// ball is then tested against the player's paddle and the follower in turn.
    pub open spec fn tick_allows(self, up: bool, down: bool, next: MatchModel) -> bool {
        &&& next.player == self.player.step(up, down)
        &&& next.threshold == self.threshold
        &&& next.scores == self.scores.credit(self.ball.exits_right(), self.ball.exits_left())
        &&& exists|b: BallModel|
            #[trigger] self.ball.scoring_tick_allows(b) && next.cpu == self.cpu.follow(
                b.y,
                self.threshold,
            ) && next.ball == bounce_off(bounce_off(b, next.player), next.cpu)
    }
}

/// A match with scoring: one ball, the player's paddle on the right, a
/// follower on the left, and the score.
#[derive(Debug)]
pub struct Match {
    config: Config,
    ball: Ball,
    player: Paddle,
    cpu: CPUPaddle,
    scores: ScoreTracker,
}

impl View for Match {
    type V = MatchModel;

    closed spec fn view(&self) -> MatchModel {
        MatchModel {
            ball: self.ball@,
            player: self.player@,
            cpu: self.cpu.paddle_model(),
            threshold: self.cpu.threshold_model(),
            scores: self.scores@,
        }
    }
}

impl Match {
    pub closed spec fn config_model(&self) -> Config {
        self.config
    }

    pub open spec fn wf(&self) -> bool {
        self@.wf()
    }

    /// The opening position: the ball at the centre with the configured
    /// velocity, both paddles vertically centred, the follower at the margin
    /// from the left edge, the player's paddle at the margin from the right
    /// edge, and no points.
    pub fn new(config: Config) -> (m: Match)
        requires
            config.wf(),
        ensures
            m.wf(),
            m.config_model() == config,
            m@.ball == opening_ball(config),
            m@.player == (PaddleModel {
                x: config.court_width - PADDLE_MARGIN - config.paddle_width,
                y: config.court_height / 2 - config.paddle_height / 2,
                width: config.paddle_width as int,
                height: config.paddle_height as int,
                speed: config.paddle_speed as int,
                court_height: config.court_height as int,
            }),
            m@.cpu == (PaddleModel { x: PADDLE_MARGIN as int, ..m@.player }),
            m@.threshold == config.reaction_threshold,
            m@.scores == (ScoreModel { left: 0, right: 0 }),
    {
        let y = config.court_height / 2 - config.paddle_height / 2;
        let player = Paddle::new(
            config.court_width - PADDLE_MARGIN - config.paddle_width,
            y,
            &config,
        );
        let cpu = CPUPaddle::new(PADDLE_MARGIN, y, &config);
        Match { config, ball: Ball::new(&config), player, cpu, scores: ScoreTracker::new() }
    }

    pub fn config(&self) -> (r: Config)
        ensures
            r == self.config_model(),
    {
        self.config
    }

    pub fn ball(&self) -> (r: &Ball)
        ensures
            r@ == self@.ball,
    {
        &self.ball
    }

    pub fn player(&self) -> (r: &Paddle)
        ensures
            r@ == self@.player,
    {
        &self.player
    }

    pub fn cpu(&self) -> (r: &CPUPaddle)
        ensures
            r.paddle_model() == self@.cpu,
            r.threshold_model() == self@.threshold,
    {
        &self.cpu
    }

    pub fn scores(&self) -> (r: &ScoreTracker)
        ensures
            r@ == self@.scores,
    {
        &self.scores
    }

    /// One tick: the ball moves (and may score and be reset), the player's
    /// paddle follows the held keys, the follower the ball, and the ball's
    /// horizontal speed is reversed for each paddle it touches. Each counter
    /// grows by at most one and never shrinks.
    pub fn tick<R: SignSource>(&mut self, up_held: bool, down_held: bool, signs: &mut R)
        requires
            old(self).wf(),
            old(self)@.scores.left < u64::MAX,
            old(self)@.scores.right < u64::MAX,
        ensures
            final(self).wf(),
            final(self).config_model() == old(self).config_model(),
            old(self)@.tick_allows(up_held, down_held, final(self)@),
            old(self)@.scores.left <= final(self)@.scores.left <= old(self)@.scores.left + 1,
            old(self)@.scores.right <= final(self)@.scores.right <= old(self)@.scores.right + 1,
            abs(final(self)@.ball.speed_x) == abs(old(self)@.ball.speed_x),
            abs(final(self)@.ball.speed_y) == abs(old(self)@.ball.speed_y),
    {
        self.ball.update(&mut self.scores, signs);
        let ghost moved = self.ball@;
        self.player.update(up_held, down_held);
        self.cpu.update(&self.ball);
        resolve(&mut self.ball, &self.player);
        resolve(&mut self.ball, self.cpu.paddle());
        assert(old(self)@.ball.scoring_tick_allows(moved));
    }
}

} // verus!
