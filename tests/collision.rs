use pong_core::ball::Ball;
use pong_core::collision::{check, circle_overlaps_rect_exec, resolve};
use pong_core::config::Config;
use pong_core::paddle::Paddle;

#[test]
fn corner_at_exact_radius_touches() {
    assert!(circle_overlaps_rect_exec(0, 0, 5, 3, 4, 10, 10));
}

#[test]
fn corner_beyond_radius_misses() {
    assert!(!circle_overlaps_rect_exec(0, 0, 4, 3, 4, 10, 10));
}

#[test]
fn centre_inside_rectangle_touches() {
    assert!(circle_overlaps_rect_exec(5, 5, 1, 0, 0, 10, 10));
}

#[test]
fn side_contact_touches() {
    assert!(circle_overlaps_rect_exec(-5, 5, 5, 0, 0, 10, 10));
    assert!(!circle_overlaps_rect_exec(-6, 5, 5, 0, 0, 10, 10));
}

#[test]
fn outside_grown_box_misses() {
    assert!(!circle_overlaps_rect_exec(100, 100, 20, 0, 0, 10, 10));
    assert!(!circle_overlaps_rect_exec(31, 5, 20, 0, 0, 10, 10));
}

#[test]
fn ball_against_paddle() {
    let c = Config::standard();
    let p = Paddle::new(770, 180, &c);
    let touching = Ball::at(&c, 755, 240, 5, 5);
    assert!(check(&touching, &p));
    let apart = Ball::at(&c, 749, 240, 5, 5);
    assert!(!check(&apart, &p));
    let near_corner = Ball::at(&c, 760, 170, 5, 5);
    assert!(check(&near_corner, &p));
    let past_corner = Ball::at(&c, 755, 165, 5, 5);
    assert!(!check(&past_corner, &p));
}

#[test]
fn resolve_reverses_on_contact_only() {
    let c = Config::standard();
    let p = Paddle::new(770, 180, &c);
    let mut b = Ball::at(&c, 755, 240, 5, 5);
    assert!(resolve(&mut b, &p));
    assert_eq!((b.x(), b.y(), b.speed_x(), b.speed_y()), (755, 240, -5, 5));
    let mut far = Ball::at(&c, 400, 240, 5, 5);
    assert!(!resolve(&mut far, &p));
    assert_eq!(far.speed_x(), 5);
}
