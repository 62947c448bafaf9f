//! Tests of the match state: the spawn scheduler, scoring, and whole
//! frames, on concrete values.
//!
//! Scales: positions in microunits (1 unit = 1_000_000), velocities in
//! milliunits per second (1 unit/s = 1_000), time in milliseconds.

use pong::components::{Ball, BallEntity, Position, Side, Velocity};
use pong::pong::Pong;

fn flying_ball(x: i64, y: i64, vx: i64, vy: i64) -> Option<BallEntity> {
    Some(BallEntity {
        ball: Ball { velocity: Velocity { x: vx, y: vy }, radius: 2_000_000 },
        pos: Position { x, y },
    })
}

#[test]
fn default_match_is_empty() {
    let p = Pong::default();
    assert_eq!(p.ball_spawn_timer, None);
    assert!(p.ball.is_none());
    assert_eq!(p.left_score, 0);
    assert_eq!(p.right_score, 0);
}

#[test]
fn on_start_arms_spawn_timer() {
    let mut p = Pong::default();
    p.on_start();
    assert_eq!(p.ball_spawn_timer, Some(1_000));
    assert!(p.ball.is_none());
    assert_eq!(p.left.pos, Position { x: 2_000_000, y: 50_000_000 });
    assert_eq!(p.right.pos, Position { x: 98_000_000, y: 50_000_000 });
}

#[test]
fn scheduler_spawns_once_after_delay() {
    // Timer starts at 1.0 s; three frames of 0.4 s each: the ball exists by
    // the third frame and was created exactly once.
    let mut p = Pong::default();
    p.on_start();
    assert!(!p.update(400));
    assert_eq!(p.ball_spawn_timer, Some(600));
    assert!(p.ball.is_none());
    assert!(!p.update(400));
    assert_eq!(p.ball_spawn_timer, Some(200));
    assert!(p.ball.is_none());
    assert!(p.update(400));
    assert_eq!(p.ball_spawn_timer, None);
    let b = p.ball.expect("ball spawned on the third frame");
    assert_eq!(b.pos, Position { x: 50_000_000, y: 50_000_000 });
    assert_eq!(b.ball.velocity, Velocity { x: 75_000, y: 50_000 });
    // A fourth step spawns nothing further.
    assert!(!p.update(400));
    assert!(p.ball.is_some());
}

#[test]
fn scheduler_idle_without_timer() {
    let mut p = Pong::default();
    assert!(!p.update(400));
    assert_eq!(p.ball_spawn_timer, None);
    assert!(p.ball.is_none());
}

#[test]
fn frame_counts_the_timer_down() {
    let mut p = Pong::default();
    p.on_start();
    let scored = p.frame(0, 0, 400);
    assert_eq!(scored, None);
    assert_eq!(p.ball_spawn_timer, Some(600));
    assert!(p.ball.is_none());
}

#[test]
fn frames_spawn_ball_by_third() {
    let mut p = Pong::default();
    p.on_start();
    assert_eq!(p.frame(0, 0, 400), None);
    assert!(p.ball.is_none());
    assert_eq!(p.frame(0, 0, 400), None);
    assert!(p.ball.is_none());
    assert_eq!(p.frame(0, 0, 400), None);
    let b = p.ball.expect("ball exists by the third frame");
    // The spawned ball already flew this frame's 0.4 s from the centre.
    assert_eq!(b.pos, Position { x: 80_000_000, y: 70_000_000 });
}

#[test]
fn frame_flight_without_collision() {
    // Ball at (50, 50), velocity (75, 50), delta 0.2 s: lands on (65, 60),
    // nothing else changes.
    let mut p = Pong::default();
    p.ball = flying_ball(50_000_000, 50_000_000, 75_000, 50_000);
    let scored = p.frame(0, 0, 200);
    assert_eq!(scored, None);
    let b = p.ball.expect("ball stays in play");
    assert_eq!(b.pos, Position { x: 65_000_000, y: 60_000_000 });
    assert_eq!(b.ball.velocity, Velocity { x: 75_000, y: 50_000 });
    assert_eq!(p.left_score, 0);
    assert_eq!(p.right_score, 0);
    assert_eq!(p.ball_spawn_timer, None);
}

#[test]
fn frame_bounces_off_left_paddle() {
    // Ball at (1, 50) moving left with the left paddle centred at (2, 50):
    // zero delta leaves it in the overlap, and vx flips to +75.
    let mut p = Pong::default();
    p.ball = flying_ball(1_000_000, 50_000_000, -75_000, 0);
    let scored = p.frame(0, 0, 0);
    assert_eq!(scored, None);
    let b = p.ball.expect("ball stays in play");
    assert_eq!(b.ball.velocity, Velocity { x: 75_000, y: 0 });
    assert_eq!(b.pos, Position { x: 1_000_000, y: 50_000_000 });
}

#[test]
fn frame_bounces_off_top_wall() {
    // From (50, 97) upward at 50 units/s for 0.1 s: the moved centre (97 +
    // 5 = 102) rests beyond the top wall, so vy flips.
    let mut p = Pong::default();
    p.ball = flying_ball(50_000_000, 97_000_000, 0, 50_000);
    let scored = p.frame(0, 0, 100);
    assert_eq!(scored, None);
    let b = p.ball.expect("ball stays in play");
    assert_eq!(b.pos, Position { x: 50_000_000, y: 102_000_000 });
    assert_eq!(b.ball.velocity, Velocity { x: 0, y: -50_000 });
}

#[test]
fn frame_scores_right_and_rearms_timer() {
    // The ball's x becomes -3 with radius 2 (x + radius = -1 < 0): the
    // right side scores, the ball is destroyed, the timer is re-armed.
    let mut p = Pong::default();
    p.ball = flying_ball(12_000_000, 50_000_000, -75_000, 0);
    let scored = p.frame(0, 0, 200);
    assert_eq!(scored, Some(Side::Right));
    assert!(p.ball.is_none());
    assert_eq!(p.right_score, 1);
    assert_eq!(p.left_score, 0);
    assert_eq!(p.ball_spawn_timer, Some(1_000));
}

#[test]
fn frame_scores_left_past_right_edge() {
    let mut p = Pong::default();
    p.ball = flying_ball(98_000_000, 50_000_000, 75_000, 0);
    let scored = p.frame(0, 0, 200);
    assert_eq!(scored, Some(Side::Left));
    assert!(p.ball.is_none());
    assert_eq!(p.left_score, 1);
    assert_eq!(p.right_score, 0);
    assert_eq!(p.ball_spawn_timer, Some(1_000));
}

#[test]
fn frame_moves_both_paddles() {
    let mut p = Pong::default();
    p.on_start();
    p.frame(1_000, -500, 200);
    // 50 units/s at full deflection for 0.2 s: 10 units up; half
    // deflection down: 5 units down.
    assert_eq!(p.left.pos, Position { x: 2_000_000, y: 60_000_000 });
    assert_eq!(p.right.pos, Position { x: 98_000_000, y: 45_000_000 });
}

#[test]
fn score_event_after_miss_then_respawn() {
    // A miss re-arms the timer; the following frames count it down and
    // spawn a fresh centre ball.
    let mut p = Pong::default();
    p.ball = flying_ball(12_000_000, 50_000_000, -75_000, 0);
    assert_eq!(p.frame(0, 0, 200), Some(Side::Right));
    assert_eq!(p.ball_spawn_timer, Some(1_000));
    assert_eq!(p.frame(0, 0, 600), None);
    assert_eq!(p.ball_spawn_timer, Some(400));
    assert_eq!(p.frame(0, 0, 600), None);
    let b = p.ball.expect("fresh ball after the delay");
    assert_eq!(b.ball.velocity, Velocity { x: 75_000, y: 50_000 });
}

#[test]
fn score_destroys_ball_and_rearms() {
    let mut p = Pong::default();
    p.ball = flying_ball(50_000_000, 50_000_000, 75_000, 50_000);
    p.score(Side::Left);
    assert!(p.ball.is_none());
    assert_eq!(p.left_score, 1);
    assert_eq!(p.right_score, 0);
    assert_eq!(p.ball_spawn_timer, Some(1_000));
}
