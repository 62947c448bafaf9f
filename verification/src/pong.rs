//! The match state and the frame loop: the two paddles, the optional ball,
//! the per-side score counters, and the one-shot spawn timer, together with
//! the per-frame step that runs the scheduler and every system in their
//! fixed order.

use vstd::prelude::*;

use crate::components::{
    initial_ball_entity, initial_paddle_entity, initialize_ball, initialize_paddles, BallEntity,
    PaddleEntity, Side,
};
use crate::config::{AXIS_MAX, BALL_SPAWN_DELAY, MAX_DELTA};
use crate::systems::{
    bounce, bounced_vx, integrated, move_ball, move_paddle, paddle_moved_y, wall_bounced_vy,
    winner, winner_side,
};

verus! {

/// The whole state of a match. Zero or one ball exists at any time; the
/// spawn timer is armed exactly while no ball exists and a spawn is due.
pub struct Pong {
    /// Remaining milliseconds until the next ball spawns, if a spawn is
    /// scheduled.
    pub ball_spawn_timer: Option<i64>,
    /// The paddle defending the left edge, with its position.
    pub left: PaddleEntity,
    /// The paddle defending the right edge, with its position.
    pub right: PaddleEntity,
    /// The ball, while one exists.
    pub ball: Option<BallEntity>,
    /// Points scored by the left player.
    pub left_score: u64,
    /// Points scored by the right player.
    pub right_score: u64,
}

/// The spawn timer after one scheduler step: counted down by the frame's
/// delta, and cleared once it runs out.
pub open spec fn scheduled_timer(timer: Option<i64>, delta_ms: int) -> Option<i64> {
    match timer {
        None => None,
        Some(t) => if t - delta_ms <= 0 {
            None
        } else {
            Some((t - delta_ms) as i64)
        },
    }
}

/// The ball slot after one scheduler step: the fresh centre ball once the
/// timer runs out, otherwise whatever was there before.
pub open spec fn scheduled_ball(
    timer: Option<i64>,
    ball: Option<BallEntity>,
    delta_ms: int,
) -> Option<BallEntity> {
    match timer {
        None => ball,
        Some(t) => if t - delta_ms <= 0 {
            Some(initial_ball_entity())
        } else {
            ball
        },
    }
}

/// The scoring event of one frame: the side awarded a point, judged on the
/// position the ball reaches after this frame's integration. `None` when no
/// ball is in play or the ball stays within the scoring band.
pub open spec fn frame_winner(pre: Pong, delta_ms: int) -> Option<Side> {
    match scheduled_ball(pre.ball_spawn_timer, pre.ball, delta_ms) {
        None => None,
        Some(b) => winner_side(
            integrated(b.pos.x as int, b.ball.velocity.x as int, delta_ms),
            b.ball.radius as int,
        ),
    }
}

/// How one frame relates the new state `post` to the old state `pre`:
/// the scheduler ticks first, both paddles move by their axis and are
/// clamped, and the ball (if any) is integrated, bounced off walls and
/// paddles, and finally judged for a score.
pub open spec fn frame_rel(
    pre: Pong,
    post: Pong,
    left_axis: int,
    right_axis: int,
    delta_ms: int,
) -> bool {
    &&& post.left.paddle == pre.left.paddle
    &&& post.right.paddle == pre.right.paddle
    &&& post.left.pos.x == pre.left.pos.x
    &&& post.right.pos.x == pre.right.pos.x
    &&& post.left.pos.y == paddle_moved_y(
        pre.left.pos.y as int,
        pre.left.paddle.height as int,
        left_axis,
        delta_ms,
    )
    &&& post.right.pos.y == paddle_moved_y(
        pre.right.pos.y as int,
        pre.right.paddle.height as int,
        right_axis,
        delta_ms,
    )
    &&& {
        let timer1 = scheduled_timer(pre.ball_spawn_timer, delta_ms);
        let ball1 = scheduled_ball(pre.ball_spawn_timer, pre.ball, delta_ms);
        match ball1 {
            None => {
                &&& post.ball is None
                &&& post.ball_spawn_timer == timer1
                &&& post.left_score == pre.left_score
                &&& post.right_score == pre.right_score
            },
            Some(b) => {
                let mx = integrated(b.pos.x as int, b.ball.velocity.x as int, delta_ms);
                let my = integrated(b.pos.y as int, b.ball.velocity.y as int, delta_ms);
                match winner_side(mx, b.ball.radius as int) {
                    Some(side) => {
                        &&& post.ball is None
                        &&& post.ball_spawn_timer == Some(BALL_SPAWN_DELAY)
                        &&& if side == Side::Left {
                            &&& post.left_score == pre.left_score + 1
                            &&& post.right_score == pre.right_score
                        } else {
                            &&& post.right_score == pre.right_score + 1
                            &&& post.left_score == pre.left_score
                        }
                    },
                    None => {
                        &&& post.left_score == pre.left_score
                        &&& post.right_score == pre.right_score
                        &&& post.ball_spawn_timer == timer1
                        &&& post.ball matches Some(nb)
                            && nb.ball.radius == b.ball.radius
                            && nb.ball.velocity.y == wall_bounced_vy(
                                my,
                                b.ball.radius as int,
                                b.ball.velocity.y as int,
                            )
                            && nb.ball.velocity.x == bounced_vx(
                                b.ball.velocity.x as int,
                                mx,
                                my,
                                b.ball.radius as int,
                                post.left,
                                post.right,
                            )
                            && nb.pos.x == mx
                            && nb.pos.y == my
                    },
                }
            },
        }
    }
}

impl Pong {
    /// Every reachable match state: well-formed paddles on their proper
    /// sides, a well-formed ball when one exists, the timer armed only
    /// while no ball exists and never beyond the full spawn delay.
    pub open spec fn wf(self) -> bool {
        &&& self.left.paddle.wf()
        &&& self.left.paddle.side == Side::Left
        &&& self.left.pos.wf()
        &&& self.right.paddle.wf()
        &&& self.right.paddle.side == Side::Right
        &&& self.right.pos.wf()
        &&& match self.ball {
            Some(b) => b.wf() && self.ball_spawn_timer is None,
            None => true,
        }
        &&& match self.ball_spawn_timer {
            Some(t) => 0 < t <= BALL_SPAWN_DELAY,
            None => true,
        }
    }

    /// The state before the match starts: paddles at their stations, no
    /// ball, no timer, no points.
    pub open spec fn initial() -> Pong {
        Pong {
            ball_spawn_timer: None,
            left: initial_paddle_entity(Side::Left),
            right: initial_paddle_entity(Side::Right),
            ball: None,
            left_score: 0,
            right_score: 0,
        }
    }

    /// Starts the match: places both paddles at their stations and arms the
    /// spawn timer with the full delay, so the first ball appears after it.
    pub fn on_start(&mut self)
        requires
            old(self).ball is None,
        ensures
            final(self).ball_spawn_timer == Some(BALL_SPAWN_DELAY),
            final(self).left == initial_paddle_entity(Side::Left),
            final(self).right == initial_paddle_entity(Side::Right),
            final(self).ball is None,
            final(self).left_score == old(self).left_score,
            final(self).right_score == old(self).right_score,
            final(self).wf(),
    {
        let (left, right) = initialize_paddles();
        self.left = left;
        self.right = right;
        self.ball_spawn_timer = Some(BALL_SPAWN_DELAY);
    }

    /// One scheduler step: while the timer is armed, counts it down by the
    /// frame's delta; once it runs out, clears it and spawns the ball at
    /// the arena centre. Returns whether a ball was spawned this step.
    pub fn update(&mut self, delta_ms: i64) -> (spawned: bool)
        requires
            old(self).wf(),
            0 <= delta_ms <= MAX_DELTA,
        ensures
            final(self).ball_spawn_timer == scheduled_timer(old(self).ball_spawn_timer, delta_ms as int),
            final(self).ball == scheduled_ball(old(self).ball_spawn_timer, old(self).ball, delta_ms as int),
            spawned == (old(self).ball_spawn_timer is Some && final(self).ball_spawn_timer is None),
            final(self).left == old(self).left,
            final(self).right == old(self).right,
            final(self).left_score == old(self).left_score,
            final(self).right_score == old(self).right_score,
            final(self).wf(),
    {
        match self.ball_spawn_timer {
            Some(t) => {
                let remaining: i64 = t - delta_ms;
                if remaining <= 0 {
                    self.ball_spawn_timer = None;
                    self.ball = Some(initialize_ball());
                    true
                } else {
                    self.ball_spawn_timer = Some(remaining);
                    false
                }
            },
            None => false,
        }
    }

    /// The scoring event's effect: the ball is destroyed, the given side's
    /// counter goes up by one, and the spawn timer is re-armed with the
    /// full delay.
    pub fn score(&mut self, side: Side)
        requires
            old(self).wf(),
            old(self).left_score < u64::MAX,
            old(self).right_score < u64::MAX,
        ensures
            final(self).ball is None,
            final(self).ball_spawn_timer == Some(BALL_SPAWN_DELAY),
            side == Side::Left ==> final(self).left_score == old(self).left_score + 1
                && final(self).right_score == old(self).right_score,
            side == Side::Right ==> final(self).right_score == old(self).right_score + 1
                && final(self).left_score == old(self).left_score,
            final(self).left == old(self).left,
            final(self).right == old(self).right,
            final(self).wf(),
    {
        self.ball = None;
        self.ball_spawn_timer = Some(BALL_SPAWN_DELAY);
        match side {
            Side::Left => {
                self.left_score = self.left_score + 1;
            },
            Side::Right => {
                self.right_score = self.right_score + 1;
            },
        }
    }

    /// One whole frame: the spawn scheduler ticks, both paddles move by
    /// their input axes, and the ball — if one is in play — is integrated,
    /// bounced off walls and paddles, and judged for a score. Returns the
    /// frame's scoring event, if any.
    pub fn frame(&mut self, left_axis: i64, right_axis: i64, delta_ms: i64) -> (scored: Option<Side>)
        requires
            old(self).wf(),
            -AXIS_MAX <= left_axis <= AXIS_MAX,
            -AXIS_MAX <= right_axis <= AXIS_MAX,
            0 <= delta_ms <= MAX_DELTA,
            old(self).left_score < u64::MAX,
            old(self).right_score < u64::MAX,
        ensures
            frame_rel(*old(self), *final(self), left_axis as int, right_axis as int, delta_ms as int),
            scored == frame_winner(*old(self), delta_ms as int),
            final(self).wf(),
    {
        self.update(delta_ms);
        let left_paddle = self.left.paddle;
        let right_paddle = self.right.paddle;
        move_paddle(&left_paddle, &mut self.left.pos, left_axis, delta_ms);
        move_paddle(&right_paddle, &mut self.right.pos, right_axis, delta_ms);
        match self.ball {
            Some(mut b) => {
                let ghost b0 = b;
                move_ball(&b.ball, &mut b.pos, delta_ms);
                bounce(&mut b.ball, &b.pos, &self.left, &self.right);
                let w = winner(&b.ball, &b.pos);
                match w {
                    Some(side) => {
                        self.score(side);
                        Some(side)
                    },
                    None => {
                        proof {
                            // The vertical displacement of this frame is at
                            // most MAX_STEP and has the sign of the old
                            // vertical velocity; with the wall guarantee of
                            // the previous frame this keeps the new centre
                            // within one step of the arena.
                            let vy: int = b0.ball.velocity.y as int;
                            let dt: int = delta_ms as int;
                            assert(-60_000_000_000 <= vy * dt <= 60_000_000_000) by (nonlinear_arith)
                                requires
                                    -1_000_000 <= vy <= 1_000_000,
                                    0 <= dt <= 60_000,
                            ;
                            assert((vy >= 0 ==> vy * dt >= 0) && (vy <= 0 ==> vy * dt <= 0))
                                by (nonlinear_arith)
                                requires
                                    dt >= 0,
                            ;
                        }
                        self.ball = Some(b);
                        None
                    },
                }
            },
            None => None,
        }
    }
}

impl Default for Pong {
    /// The state before the match starts.
    fn default() -> (p: Pong)
        ensures
            p == Pong::initial(),
            p.wf(),
    {
        let (left, right) = initialize_paddles();
        Pong {
            ball_spawn_timer: None,
            left,
            right,
            ball: None,
            left_score: 0,
            right_score: 0,
        }
    }
}

} // verus!
