use vstd::prelude::*;

use crate::ball::{Ball, BallModel};
use crate::paddle::{Paddle, PaddleModel};

verus! {

/// Largest absolute coordinate or size the overlap test is asked about.
pub const MAX_COORD: i64 = 4_000_000;

pub open spec fn clamp(v: int, lo: int, hi: int) -> int {
    if v < lo {
        lo
    } else if v > hi {
        hi
    } else {
        v
    }
}

/// Whether the circle of centre (`cx`, `cy`) and radius `r` shares a point
/// with the rectangle of top-left corner (`rx`, `ry`), width `w` and height
/// `h`: the point of the rectangle closest to the centre is within `r` of it.
pub open spec fn circle_overlaps_rect(
    cx: int,
    cy: int,
    r: int,
    rx: int,
    ry: int,
    w: int,
    h: int,
) -> bool {
    let dx = cx - clamp(cx, rx, rx + w);
    let dy = cy - clamp(cy, ry, ry + h);
    dx * dx + dy * dy <= r * r
}

/// Whether a ball touches a paddle.
pub open spec fn ball_touches(b: BallModel, p: PaddleModel) -> bool {
    circle_overlaps_rect(b.x, b.y, b.radius, p.x, p.y, p.width, p.height)
}

/// A circle whose centre lies outside the rectangle grown by the radius on
/// every side does not touch the rectangle.
pub proof fn lemma_far_circle_misses(cx: int, cy: int, r: int, rx: int, ry: int, w: int, h: int)
    requires
        r >= 0,
        w >= 0,
        h >= 0,
        cx < rx - r || cx > rx + w + r || cy < ry - r || cy > ry + h + r,
    ensures
        !circle_overlaps_rect(cx, cy, r, rx, ry, w, h),
{
    let dx = cx - clamp(cx, rx, rx + w);
    let dy = cy - clamp(cy, ry, ry + h);
    assert(dy * dy >= 0) by (nonlinear_arith);
    assert(dx * dx >= 0) by (nonlinear_arith);
    if cx < rx - r || cx > rx + w + r {
        assert(dx > r || dx < -r);
        assert(dx * dx > r * r) by (nonlinear_arith)
            requires
                dx > r || dx < -r,
                r >= 0,
        ;
    } else {
        assert(dy > r || dy < -r);
        assert(dy * dy > r * r) by (nonlinear_arith)
            requires
                dy > r || dy < -r,
                r >= 0,
        ;
    }
}

fn square(v: i64) -> (r: i64)
    requires
        -2 * MAX_COORD <= v <= 2 * MAX_COORD,
    ensures
        r == v * v,
        0 <= r <= 4 * MAX_COORD * MAX_COORD,
{
    assert(0 <= v * v <= 4 * MAX_COORD * MAX_COORD) by (nonlinear_arith)
        requires
            -2 * MAX_COORD <= v <= 2 * MAX_COORD,
    ;
    v * v
}

fn clamp_exec(v: i64, lo: i64, hi: i64) -> (r: i64)
    ensures
        r == clamp(v as int, lo as int, hi as int),
{
    if v < lo {
        lo
    } else if v > hi {
        hi
    } else {
        v
    }
}

/// The circle/rectangle overlap test on integer coordinates.
pub fn circle_overlaps_rect_exec(cx: i64, cy: i64, r: i64, rx: i64, ry: i64, w: i64, h: i64) -> (hit:
    bool)
    requires
        -MAX_COORD <= cx <= MAX_COORD,
        -MAX_COORD <= cy <= MAX_COORD,
        0 <= r <= MAX_COORD,
        -MAX_COORD <= rx <= MAX_COORD,
        -MAX_COORD <= ry <= MAX_COORD,
        0 <= w <= MAX_COORD,
        0 <= h <= MAX_COORD,
    ensures
        hit == circle_overlaps_rect(
            cx as int,
            cy as int,
            r as int,
            rx as int,
            ry as int,
            w as int,
            h as int,
        ),
{
    let px = clamp_exec(cx, rx, rx + w);
    let py = clamp_exec(cy, ry, ry + h);
    let dx2 = square(cx - px);
    let dy2 = square(cy - py);
    dx2 + dy2 <= square(r)
}

/// Whether the ball touches the paddle.
pub fn check(ball: &Ball, paddle: &Paddle) -> (hit: bool)
    requires
        ball.wf(),
        paddle.wf(),
    ensures
        hit == ball_touches(ball@, paddle@),
{
    circle_overlaps_rect_exec(
        ball.x() as i64,
        ball.y() as i64,
        ball.radius() as i64,
        paddle.x() as i64,
        paddle.y() as i64,
        paddle.width() as i64,
        paddle.height() as i64,
    )
}

/// Reverses the ball's horizontal speed if it touches the paddle, and says
/// whether it did. The ball is not moved apart from the paddle.
pub fn resolve(ball: &mut Ball, paddle: &Paddle) -> (hit: bool)
    requires
        old(ball).wf(),
        paddle.wf(),
    ensures
        hit == ball_touches(old(ball)@, paddle@),
        hit ==> final(ball)@ == (BallModel { speed_x: -old(ball)@.speed_x, ..old(ball)@ }),
        !hit ==> final(ball)@ == old(ball)@,
        final(ball).wf(),
{
    let hit = check(ball, paddle);
    if hit {
        ball.reflect_horizontal();
    }
    hit
}

} // verus!
