use vstd::prelude::*;

use crate::config::{abs, Config, MAX_SPEED};
use crate::random::SignSource;
use crate::score::{ScoreModel, ScoreTracker, Side};

verus! {

/// The state of a ball, together with the court it moves in.
pub ghost struct BallModel {
    pub x: int,
    pub y: int,
    pub speed_x: int,
    pub speed_y: int,
    pub radius: int,
    pub court_width: int,
    pub court_height: int,
}

/// `magnitude` with the sign a draw stands for: positive for a draw above
/// zero, negative otherwise.
pub open spec fn signed(draw: int, magnitude: int) -> int {
    if draw > 0 { magnitude } else { -magnitude }
}

/// The ball a match starts with: at the centre of the court, with the
/// configured velocity and radius.
pub open spec fn opening_ball(config: Config) -> BallModel {
    BallModel {
        x: config.court_width / 2,
        y: config.court_height / 2,
        speed_x: config.ball_speed_x as int,
        speed_y: config.ball_speed_y as int,
        radius: config.ball_radius as int,
        court_width: config.court_width as int,
        court_height: config.court_height as int,
    }
}

impl BallModel {
    /// Fixed sizes the ball and its court must have.
    pub open spec fn sane(self) -> bool {
        &&& 1 <= self.court_width <= crate::config::MAX_DIM
        &&& 1 <= self.court_height <= crate::config::MAX_DIM
        &&& 1 <= self.radius
        &&& 2 * self.radius <= self.court_width
        &&& 2 * self.radius <= self.court_height
        &&& abs(self.speed_x) <= MAX_SPEED
        &&& abs(self.speed_y) <= MAX_SPEED
    }

    /// Vertically, the ball is at most one tick of travel past the band in
    /// which it touches neither the top nor the bottom wall, and when it is
    /// past that band it is heading back into it.
    pub open spec fn within_height(self) -> bool {
        &&& self.radius - abs(self.speed_y) <= self.y <= self.court_height - self.radius + abs(
            self.speed_y,
        )
        &&& self.y < self.radius ==> self.speed_y < 0
        &&& self.y > self.court_height - self.radius ==> self.speed_y > 0
    }

    /// The same property horizontally, for a court whose side walls reflect.
    pub open spec fn within_width(self) -> bool {
        &&& self.radius - abs(self.speed_x) <= self.x <= self.court_width - self.radius + abs(
            self.speed_x,
        )
        &&& self.x < self.radius ==> self.speed_x < 0
        &&& self.x > self.court_width - self.radius ==> self.speed_x > 0
    }

    /// A ball in a match with scoring: sane sizes, within the court height,
    /// and horizontally no further outside the court than one tick of travel
    /// at the largest speed.
    pub open spec fn in_play(self) -> bool {
        &&& self.sane()
        &&& self.within_height()
        &&& -MAX_SPEED <= self.x <= self.court_width + MAX_SPEED
    }

    /// A ball in a match whose side walls reflect instead of scoring.
    pub open spec fn in_play_bouncing(self) -> bool {
        self.in_play() && self.within_width()
    }

    pub open spec fn exits_right(self) -> bool {
        self.x + self.radius > self.court_width
    }

    pub open spec fn exits_left(self) -> bool {
        self.x - self.radius < 0
    }

    pub open spec fn exits(self) -> bool {
        self.exits_right() || self.exits_left()
    }

    /// The ball put back at the centre of the court with the given velocity.
    pub open spec fn recenter(self, speed_x: int, speed_y: int) -> BallModel {
        BallModel {
            x: self.court_width / 2,
            y: self.court_height / 2,
            speed_x,
            speed_y,
            ..self
        }
    }

    /// Whether the ball touches or is past the top or bottom wall.
    pub open spec fn hits_top_or_bottom(self) -> bool {
        self.y + self.radius > self.court_height || self.y - self.radius < 0
    }

    /// Whether the ball's leading edge reaches or passes a side wall.
    pub open spec fn hits_side(self) -> bool {
        self.x + self.radius >= self.court_width || self.x - self.radius <= 0
    }

    pub open spec fn reflect_y(self) -> BallModel {
        if self.hits_top_or_bottom() {
            BallModel { speed_y: -self.speed_y, ..self }
        } else {
            self
        }
    }

    pub open spec fn reflect_x(self) -> BallModel {
        if self.hits_side() {
            BallModel { speed_x: -self.speed_x, ..self }
        } else {
            self
        }
    }

    /// One step of motion: position plus velocity.
    pub open spec fn advance(self) -> BallModel {
        BallModel { x: self.x + self.speed_x, y: self.y + self.speed_y, ..self }
    }

    /// One tick of a court whose side walls reflect.
    pub open spec fn bouncing_tick(self) -> BallModel {
        self.reflect_y().reflect_x().advance()
    }

    /// Whether `next` is a possible state one tick of a match with scoring
    /// after this one. A ball that left the court is put back at the centre
    /// with the same speed on each axis and a direction that the draws decide,
    /// then moves; any other ball is reflected off the top or bottom wall if
    /// it touches one, then moves.
    pub open spec fn scoring_tick_allows(self, next: BallModel) -> bool {
        &&& !self.exits() ==> next == self.reflect_y().advance()
        &&& self.exits() ==> next == self.recenter(next.speed_x, next.speed_y).advance()
        &&& abs(next.speed_x) == abs(self.speed_x)
        &&& abs(next.speed_y) == abs(self.speed_y)
    }

    /// Same radius and court.
    pub open spec fn same_frame(self, other: BallModel) -> bool {
        self.radius == other.radius && self.court_width == other.court_width
            && self.court_height == other.court_height
    }
}

/// In a match with scoring, a ball in play whose right edge is past the right
/// wall gives the left side exactly one point and the right side none, is put
/// back at the exact centre of the court, and keeps the speed it had on each
/// axis; it then moves one step from the centre.
pub proof fn lemma_right_exit_scores_left(b: BallModel, scores: ScoreModel, next: BallModel)
    requires
        b.in_play(),
        b.exits_right(),
        b.scoring_tick_allows(next),
    ensures
        scores.credit(b.exits_right(), b.exits_left()) == (ScoreModel {
            left: scores.left + 1,
            right: scores.right,
        }),
        next.x - next.speed_x == b.court_width / 2,
        next.y - next.speed_y == b.court_height / 2,
        abs(next.speed_x) == abs(b.speed_x),
        abs(next.speed_y) == abs(b.speed_y),
        next.same_frame(b),
{
}

/// A ball: its centre, its velocity in pixels per tick, its radius, and the
/// size of the court it moves in.
#[derive(Debug)]
pub struct Ball {
    x: i32,
    y: i32,
    speed_x: i32,
    speed_y: i32,
    radius: i32,
    court_width: i32,
    court_height: i32,
}

impl View for Ball {
    type V = BallModel;

    closed spec fn view(&self) -> BallModel {
        BallModel {
            x: self.x as int,
            y: self.y as int,
            speed_x: self.speed_x as int,
            speed_y: self.speed_y as int,
            radius: self.radius as int,
            court_width: self.court_width as int,
            court_height: self.court_height as int,
        }
    }
}

fn magnitude(v: i32) -> (r: i32)
    requires
        abs(v as int) <= MAX_SPEED,
    ensures
        r == abs(v as int),
{
    if v < 0 {
        -v
    } else {
        v
    }
}

impl Ball {
    pub open spec fn wf(&self) -> bool {
        self@.in_play()
    }

    /// The ball a match starts with: at the centre of the court, with the
    /// configured velocity and radius.
    pub fn new(config: &Config) -> (b: Ball)
        requires
            config.wf(),
        ensures
            b@ == opening_ball(*config),
            b.wf(),
            b@.in_play_bouncing(),
    {
        Ball {
            x: config.court_width / 2,
            y: config.court_height / 2,
            speed_x: config.ball_speed_x,
            speed_y: config.ball_speed_y,
            radius: config.ball_radius,
            court_width: config.court_width,
            court_height: config.court_height,
        }
    }

    /// A ball of the configured radius and court at a given centre and
    /// velocity.
    pub fn at(config: &Config, x: i32, y: i32, speed_x: i32, speed_y: i32) -> (b: Ball)
        requires
            config.wf(),
            (BallModel {
                x: x as int,
                y: y as int,
                speed_x: speed_x as int,
                speed_y: speed_y as int,
                radius: config.ball_radius as int,
                court_width: config.court_width as int,
                court_height: config.court_height as int,
            }).in_play(),
        ensures
            b@ == (BallModel {
                x: x as int,
                y: y as int,
                speed_x: speed_x as int,
                speed_y: speed_y as int,
                radius: config.ball_radius as int,
                court_width: config.court_width as int,
                court_height: config.court_height as int,
            }),
            b.wf(),
    {
        Ball {
            x,
            y,
            speed_x,
            speed_y,
            radius: config.ball_radius,
            court_width: config.court_width,
            court_height: config.court_height,
        }
    }

    pub fn x(&self) -> (r: i32)
        ensures
            r == self@.x,
    {
        self.x
    }

    pub fn y(&self) -> (r: i32)
        ensures
            r == self@.y,
    {
        self.y
    }

    pub fn speed_x(&self) -> (r: i32)
        ensures
            r == self@.speed_x,
    {
        self.speed_x
    }

    pub fn speed_y(&self) -> (r: i32)
        ensures
            r == self@.speed_y,
    {
        self.speed_y
    }

    pub fn radius(&self) -> (r: i32)
        ensures
            r == self@.radius,
    {
        self.radius
    }

    /// Puts the ball back at the centre of the court and gives each velocity
    /// component the sign of its draw (a draw of zero or less means negative),
    /// keeping its magnitude.
    pub fn reset_with(&mut self, draw_x: i32, draw_y: i32)
        requires
            old(self).wf(),
        ensures
            final(self)@ == old(self)@.recenter(
                signed(draw_x as int, abs(old(self)@.speed_x)),
                signed(draw_y as int, abs(old(self)@.speed_y)),
            ),
            final(self).wf(),
    {
        self.x = self.court_width / 2;
        self.y = self.court_height / 2;
        let mx = magnitude(self.speed_x);
        let my = magnitude(self.speed_y);
        self.speed_x = if draw_x > 0 { mx } else { -mx };
        self.speed_y = if draw_y > 0 { my } else { -my };
    }

    /// Puts the ball back at the centre of the court with a direction drawn
    /// from `signs`, one draw per axis; the speed on each axis is kept.
    pub fn reset<R: SignSource>(&mut self, signs: &mut R)
        requires
            old(self).wf(),
        ensures
            final(self)@ == old(self)@.recenter(final(self)@.speed_x, final(self)@.speed_y),
            abs(final(self)@.speed_x) == abs(old(self)@.speed_x),
            abs(final(self)@.speed_y) == abs(old(self)@.speed_y),
            final(self).wf(),
    {
        let draw_x = signs.draw();
        let draw_y = signs.draw();
        self.reset_with(draw_x, draw_y);
    }

    /// One tick of a match with scoring. A ball whose right edge is past the
    /// right wall scores for the left side and is reset; one whose left edge
    /// is past the left wall scores for the right side and is reset. Then a
    /// ball touching or past the top or bottom wall has its vertical speed
    /// reversed, and finally the ball moves by its velocity.
    pub fn update<R: SignSource>(&mut self, scores: &mut ScoreTracker, signs: &mut R)
        requires
            old(self).wf(),
            old(scores).has_room(),
        ensures
            final(self).wf(),
            final(scores)@ == old(scores)@.credit(
                old(self)@.exits_right(),
                old(self)@.exits_left(),
            ),
            old(self)@.scoring_tick_allows(final(self)@),
    {
        if self.x + self.radius > self.court_width {
            scores.record_exit(Side::Right);
            self.reset(signs);
        }
        if self.x - self.radius < 0 {
            scores.record_exit(Side::Left);
            self.reset(signs);
        }
        if self.y + self.radius > self.court_height || self.y - self.radius < 0 {
            self.speed_y = -self.speed_y;
        }
        self.x = self.x + self.speed_x;
        self.y = self.y + self.speed_y;
    }

    /// One tick of a match whose side walls reflect: a ball touching or past
    /// a side wall has its horizontal speed reversed, one past the top or
    /// bottom wall its vertical speed, and then the ball moves by its velocity.
    pub fn update_bouncing(&mut self)
        requires
            old(self)@.in_play_bouncing(),
        ensures
            final(self)@ == old(self)@.bouncing_tick(),
            final(self)@.in_play_bouncing(),
            old(self)@.hits_side() ==> final(self)@.speed_x == -old(self)@.speed_x,
            !old(self)@.hits_side() ==> final(self)@.speed_x == old(self)@.speed_x,
            abs(final(self)@.speed_x) == abs(old(self)@.speed_x),
    {
        if self.y + self.radius > self.court_height || self.y - self.radius < 0 {
            self.speed_y = -self.speed_y;
        }
        if self.x + self.radius >= self.court_width || self.x - self.radius <= 0 {
            self.speed_x = -self.speed_x;
        }
        self.x = self.x + self.speed_x;
        self.y = self.y + self.speed_y;
    }

    /// Reverses the horizontal speed, as a paddle hit does.
    pub fn reflect_horizontal(&mut self)
        requires
            old(self).wf(),
        ensures
            final(self)@ == (BallModel { speed_x: -old(self)@.speed_x, ..old(self)@ }),
            final(self).wf(),
    {
        self.speed_x = -self.speed_x;
    }
}

} // verus!
