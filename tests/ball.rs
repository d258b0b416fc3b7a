use pong_core::ball::Ball;
use pong_core::config::Config;
use pong_core::random::{SignSource, ThreadSigns};
use pong_core::score::{ScoreTracker, Side};

struct Scripted {
    draws: Vec<i32>,
    next: usize,
}

impl SignSource for Scripted {
    fn draw(&mut self) -> i32 {
        let d = self.draws[self.next % self.draws.len()];
        self.next += 1;
        d
    }
}

fn scripted(draws: &[i32]) -> Scripted {
    Scripted { draws: draws.to_vec(), next: 0 }
}

fn position(b: &Ball) -> (i32, i32) {
    (b.x(), b.y())
}

fn velocity(b: &Ball) -> (i32, i32) {
    (b.speed_x(), b.speed_y())
}

#[test]
fn new_ball_starts_at_centre() {
    let c = Config::standard();
    let b = Ball::new(&c);
    assert_eq!(position(&b), (400, 240));
    assert_eq!(velocity(&b), (5, 5));
    assert_eq!(b.radius(), 20);
}

#[test]
fn free_tick_moves_by_velocity() {
    let c = Config::standard();
    let mut b = Ball::at(&c, 400, 240, 5, 5);
    let mut s = ScoreTracker::new();
    let mut signs = scripted(&[1]);
    b.update(&mut s, &mut signs);
    assert_eq!(position(&b), (405, 245));
    assert_eq!(velocity(&b), (5, 5));
    assert_eq!((s.left(), s.right()), (0, 0));
    assert_eq!(signs.next, 0);
}

#[test]
fn right_exit_scores_left_and_resets() {
    let c = Config::standard();
    let mut b = Ball::at(&c, 790, 240, 5, 0);
    let mut s = ScoreTracker::new();
    let mut signs = scripted(&[1, 1]);
    b.update(&mut s, &mut signs);
    assert_eq!((s.left(), s.right()), (1, 0));
    assert_eq!(velocity(&b), (5, 0));
    assert_eq!(position(&b), (405, 240));
}

#[test]
fn right_exit_with_negative_draws() {
    let c = Config::standard();
    let mut b = Ball::at(&c, 790, 100, 7, -3);
    let mut s = ScoreTracker::new();
    let mut signs = scripted(&[-1, 0]);
    b.update(&mut s, &mut signs);
    assert_eq!((s.left(), s.right()), (1, 0));
    assert_eq!(velocity(&b), (-7, -3));
    assert_eq!(position(&b), (393, 237));
}

#[test]
fn left_exit_scores_right() {
    let c = Config::standard();
    let mut b = Ball::at(&c, 10, 240, -5, 5);
    let mut s = ScoreTracker::new();
    let mut signs = scripted(&[1, -1]);
    b.update(&mut s, &mut signs);
    assert_eq!((s.left(), s.right()), (0, 1));
    assert_eq!(velocity(&b), (5, -5));
    assert_eq!(position(&b), (405, 235));
}

#[test]
fn edge_exactly_on_wall_does_not_score() {
    let c = Config::standard();
    let mut b = Ball::at(&c, 780, 240, 5, 0);
    let mut s = ScoreTracker::new();
    let mut signs = scripted(&[1]);
    b.update(&mut s, &mut signs);
    assert_eq!((s.left(), s.right()), (0, 0));
    assert_eq!(position(&b), (785, 240));
}

#[test]
fn top_wall_reflects_vertical_speed() {
    let c = Config::standard();
    let mut b = Ball::at(&c, 400, 15, 5, -5);
    let mut s = ScoreTracker::new();
    let mut signs = scripted(&[1]);
    b.update(&mut s, &mut signs);
    assert_eq!(velocity(&b), (5, 5));
    assert_eq!(position(&b), (405, 20));
}

#[test]
fn bottom_wall_reflects_vertical_speed() {
    let c = Config::standard();
    let mut b = Ball::at(&c, 400, 462, 5, 5);
    let mut s = ScoreTracker::new();
    let mut signs = scripted(&[1]);
    b.update(&mut s, &mut signs);
    assert_eq!(velocity(&b), (5, -5));
    assert_eq!(position(&b), (405, 457));
}

#[test]
fn reset_with_zero_draw_is_negative() {
    let c = Config::standard();
    let mut b = Ball::at(&c, 100, 100, 5, -5);
    b.reset_with(0, 1);
    assert_eq!(position(&b), (400, 240));
    assert_eq!(velocity(&b), (-5, 5));
    b.reset_with(1, -1);
    assert_eq!(velocity(&b), (5, -5));
}

#[test]
fn reset_keeps_speed_magnitudes() {
    let c = Config::standard();
    let mut b = Ball::at(&c, 100, 300, -5, 5);
    let mut signs = ThreadSigns;
    for _ in 0..50 {
        b.reset(&mut signs);
        assert_eq!(position(&b), (400, 240));
        assert_eq!(b.speed_x().abs(), 5);
        assert_eq!(b.speed_y().abs(), 5);
    }
}

#[test]
fn thread_signs_stay_in_range_and_vary() {
    let mut signs = ThreadSigns;
    let mut seen = [false; 3];
    for _ in 0..300 {
        let d = signs.draw();
        assert!((-1..=1).contains(&d));
        seen[(d + 1) as usize] = true;
    }
    assert!(seen.iter().filter(|s| **s).count() >= 2);
}

#[test]
fn bouncing_right_wall_flips_horizontal_speed() {
    let c = Config::standard();
    let mut b = Ball::at(&c, 780, 240, 5, 5);
    b.update_bouncing();
    assert_eq!(velocity(&b), (-5, 5));
    assert_eq!(position(&b), (775, 245));
}

#[test]
fn bouncing_left_wall_flips_horizontal_speed() {
    let c = Config::standard();
    let mut b = Ball::at(&c, 20, 240, -5, 5);
    b.update_bouncing();
    assert_eq!(velocity(&b), (5, 5));
    assert_eq!(position(&b), (25, 245));
}

#[test]
fn bouncing_inside_keeps_horizontal_speed() {
    let c = Config::standard();
    let mut b = Ball::at(&c, 779, 240, 5, 5);
    b.update_bouncing();
    assert_eq!(velocity(&b), (5, 5));
    assert_eq!(position(&b), (784, 245));
}

#[test]
fn bouncing_keeps_ball_near_court() {
    let c = Config::standard();
    let mut b = Ball::new(&c);
    for _ in 0..5000 {
        b.update_bouncing();
        assert!(b.x() >= 15 && b.x() <= 785);
        assert!(b.y() >= 15 && b.y() <= 465);
        assert_eq!(b.speed_x().abs(), 5);
    }
}

#[test]
fn score_tracker_credits_opposite_side() {
    let mut s = ScoreTracker::new();
    s.record_exit(Side::Right);
    s.record_exit(Side::Right);
    s.record_exit(Side::Left);
    assert_eq!((s.left(), s.right()), (2, 1));
}
