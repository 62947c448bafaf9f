//! The laws of the simulation core, each stated over the spec-level models
//! that the systems' contracts use and proved once and for all.

use vstd::prelude::*;

use crate::components::{Paddle, Position};
use crate::config::{ARENA_HEIGHT, ARENA_WIDTH};
use crate::pong::{frame_rel, frame_winner, scheduled_ball, scheduled_timer, Pong};
use crate::systems::{
    ball_hits_paddle, integrated, moving_toward, paddle_bounced_vx, paddle_moved_y,
    wall_bounced_vy,
};

verus! {

/// Euler integration is additive in the elapsed time: integrating a
/// coordinate with a fixed velocity for `d1` milliseconds and then for `d2`
/// more lands exactly where integrating once for `d1 + d2` does.
pub proof fn lemma_integration_additive(c: int, v: int, d1: int, d2: int)
    ensures
        integrated(integrated(c, v, d1), v, d2) == integrated(c, v, d1 + d2),
{
    assert(v * d1 + v * d2 == v * (d1 + d2)) by (nonlinear_arith);
}

/// Integrating twice for half an (even) delta lands exactly where
/// integrating once for the whole delta does: Euler integration over this
/// model is linear, with no rounding at all.
pub proof fn lemma_integration_split_halves(c: int, v: int, d: int)
    requires
        d >= 0,
        d % 2 == 0,
    ensures
        integrated(integrated(c, v, d / 2), v, d / 2) == integrated(c, v, d),
{
    lemma_integration_additive(c, v, d / 2, d / 2);
}

/// The vertical paddle centre after a run of movement updates, applied in
/// order; each entry carries an input axis and a frame delta.
pub open spec fn paddle_y_after(y0: int, height: int, moves: Seq<(int, int)>) -> int
    decreases moves.len(),
{
    if moves.len() == 0 {
        y0
    } else {
        paddle_moved_y(
            paddle_y_after(y0, height, moves.drop_last()),
            height,
            moves.last().0,
            moves.last().1,
        )
    }
}

/// After any (non-empty) run of movement updates the paddle is clamped: its
/// vertical extent lies inside the arena, whatever the starting centre and
/// whatever axis values and deltas were applied.
pub proof fn lemma_paddle_always_clamped(y0: int, height: int, moves: Seq<(int, int)>)
    requires
        0 <= height <= ARENA_HEIGHT,
        moves.len() >= 1,
    ensures
        paddle_y_after(y0, height, moves) - height / 2 >= 0,
        paddle_y_after(y0, height, moves) + height / 2 <= ARENA_HEIGHT,
{
}

/// A ball resting against or beyond the bottom wall while moving down
/// leaves the wall pass moving up, with the magnitude of its vertical
/// velocity unchanged.
pub proof fn lemma_wall_bounce_reverses_upward(y: int, radius: int, vy: int)
    requires
        y - radius <= 0,
        vy < 0,
    ensures
        wall_bounced_vy(y, radius, vy) == -vy,
        wall_bounced_vy(y, radius, vy) > 0,
{
}

/// A ball resting against or beyond the top wall while moving up leaves the
/// wall pass moving down, with the magnitude of its vertical velocity
/// unchanged.
pub proof fn lemma_wall_bounce_reverses_downward(y: int, radius: int, vy: int)
    requires
        y + radius >= ARENA_HEIGHT,
        vy > 0,
    ensures
        wall_bounced_vy(y, radius, vy) == -vy,
        wall_bounced_vy(y, radius, vy) < 0,
{
}

/// The paddle pass can only reverse the horizontal velocity, and it does so
/// exactly when the ball was moving toward that paddle and overlaps its
/// box; a ball moving away (or not at all) passes through unchanged.
pub proof fn lemma_paddle_bounce_directional(
    vx: int,
    bx: int,
    by: int,
    radius: int,
    paddle: Paddle,
    ppos: Position,
)
    ensures
        paddle_bounced_vx(vx, bx, by, radius, paddle, ppos) != vx ==> moving_toward(paddle.side, vx)
            && ball_hits_paddle(bx, by, radius, paddle, ppos)
            && paddle_bounced_vx(vx, bx, by, radius, paddle, ppos) == -vx,
        !moving_toward(paddle.side, vx) ==> paddle_bounced_vx(vx, bx, by, radius, paddle, ppos) == vx,
{
}

/// A ball can never be out of bounds on both sides at once: the two scoring
/// conditions exclude each other for any non-negative radius.
pub proof fn lemma_at_most_one_side_out(x: int, radius: int)
    requires
        radius >= 0,
    ensures
        !(x + radius < 0 && x - radius > ARENA_WIDTH),
{
}

/// While a ball is in play the scheduler is idle: in every well-formed
/// state with a ball, the timer is disarmed, so no second ball can be
/// spawned until a scoring event re-arms it. Each ball is created exactly
/// once.
pub proof fn lemma_no_spawn_while_ball_in_play(p: Pong, delta_ms: int)
    requires
        p.wf(),
        p.ball is Some,
    ensures
        scheduled_ball(p.ball_spawn_timer, p.ball, delta_ms) == p.ball,
        scheduled_timer(p.ball_spawn_timer, delta_ms) == p.ball_spawn_timer,
{
}

/// A frame whose ball ends out of bounds fires exactly one scoring event:
/// one side's counter goes up by exactly one, and the ball entity no longer
/// exists when the frame is over.
pub proof fn lemma_one_score_per_frame(
    pre: Pong,
    post: Pong,
    left_axis: int,
    right_axis: int,
    delta_ms: int,
)
    requires
        frame_rel(pre, post, left_axis, right_axis, delta_ms),
        frame_winner(pre, delta_ms) is Some,
    ensures
        post.ball is None,
        post.left_score + post.right_score == pre.left_score + pre.right_score + 1,
{
}

} // verus!
