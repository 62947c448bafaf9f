//! The per-frame simulation systems: paddle movement, ball integration,
//! wall and paddle bounces, and scoring detection. Each system is a pure
//! read-compute-write pass whose effect is pinned down by a spec-level
//! model over mathematical integers.

use vstd::prelude::*;

use crate::components::{Ball, Paddle, PaddleEntity, Position, Side};
use crate::config::{ARENA_HEIGHT, ARENA_WIDTH, AXIS_MAX, MAX_DELTA, PADDLE_SPEED};

verus! {

/// `v` pulled into the interval `[lo, hi]` (for `lo <= hi`).
pub open spec fn clamped(v: int, lo: int, hi: int) -> int {
    if v < lo {
        lo
    } else if v > hi {
        hi
    } else {
        v
    }
}

/// A coordinate after exact kinematic integration: velocity `v` held for
/// `delta_ms` milliseconds from `c`.
pub open spec fn integrated(c: int, v: int, delta_ms: int) -> int {
    c + v * delta_ms
}

/// The vertical centre of a paddle of height `height` after one movement
/// update: the proposal `y + axis * PADDLE_SPEED * delta_ms` clamped so the
/// paddle's vertical extent stays inside the arena.
pub open spec fn paddle_moved_y(y: int, height: int, axis: int, delta_ms: int) -> int {
    clamped(
        y + axis * PADDLE_SPEED * delta_ms,
        height / 2,
        ARENA_HEIGHT - height / 2,
    )
}

/// The vertical ball velocity after the wall pass: negated exactly when the
/// ball rests against or beyond a horizontal wall while still moving toward
/// it.
pub open spec fn wall_bounced_vy(y: int, radius: int, vy: int) -> int {
    if (y - radius <= 0 && vy < 0) || (y + radius >= ARENA_HEIGHT && vy > 0) {
        -vy
    } else {
        vy
    }
}

/// Whether a horizontal velocity `vx` points toward the paddle on `side`.
pub open spec fn moving_toward(side: Side, vx: int) -> bool {
    match side {
        Side::Left => vx < 0,
        Side::Right => vx > 0,
    }
}

/// Whether a ball of radius `radius` centred at `(bx, by)` overlaps the
/// axis-aligned bounding box of `paddle` centred at `ppos`, the box grown
/// by the radius on every side.
pub open spec fn ball_hits_paddle(bx: int, by: int, radius: int, paddle: Paddle, ppos: Position) -> bool {
    &&& ppos.x - paddle.width / 2 - radius <= bx <= ppos.x + paddle.width / 2 + radius
    &&& ppos.y - paddle.height / 2 - radius <= by <= ppos.y + paddle.height / 2 + radius
}

/// The horizontal ball velocity after the pass against one paddle: negated
/// exactly when the ball overlaps the paddle's box while moving toward that
/// paddle's side.
pub open spec fn paddle_bounced_vx(
    vx: int,
    bx: int,
    by: int,
    radius: int,
    paddle: Paddle,
    ppos: Position,
) -> int {
    if moving_toward(paddle.side, vx) && ball_hits_paddle(bx, by, radius, paddle, ppos) {
        -vx
    } else {
        vx
    }
}

/// The horizontal ball velocity after the whole paddle pass: the left
/// paddle is resolved first, then the right one.
pub open spec fn bounced_vx(
    vx: int,
    bx: int,
    by: int,
    radius: int,
    left: PaddleEntity,
    right: PaddleEntity,
) -> int {
    paddle_bounced_vx(
        paddle_bounced_vx(vx, bx, by, radius, left.paddle, left.pos),
        bx,
        by,
        radius,
        right.paddle,
        right.pos,
    )
}

/// The side awarded a point for a ball of radius `radius` centred at `x`:
/// the right player scores when the ball is fully past the left edge, the
/// left player when it is fully past the right edge.
pub open spec fn winner_side(x: int, radius: int) -> Option<Side> {
    if x + radius < 0 {
        Some(Side::Right)
    } else if x - radius > ARENA_WIDTH {
        Some(Side::Left)
    } else {
        None
    }
}

/// The axis value the movement system acts on for a per-side input binding:
/// a missing binding, or one outside the accepted deflection range, counts
/// as no input at all and leaves the paddle stationary.
pub open spec fn axis_from_input(binding: Option<i64>) -> i64 {
    match binding {
        Some(v) => if -AXIS_MAX <= v <= AXIS_MAX {
            v
        } else {
            0
        },
        None => 0,
    }
}

/// Reads a per-side input binding into an axis value the movement system
/// accepts: missing or out-of-range input is treated as 0 (stationary).
pub fn read_axis(binding: Option<i64>) -> (axis: i64)
    ensures
        axis == axis_from_input(binding),
        -AXIS_MAX <= axis <= AXIS_MAX,
{
    match binding {
        Some(v) => if -AXIS_MAX <= v && v <= AXIS_MAX {
            v
        } else {
            0
        },
        None => 0,
    }
}

/// Paddle movement: applies the per-side input axis (in milli, full
/// deflection 1000) for `delta_ms` milliseconds and clamps the paddle's
/// vertical extent to the arena. Only the vertical coordinate changes.
pub fn move_paddle(paddle: &Paddle, pos: &mut Position, axis: i64, delta_ms: i64)
    requires
        paddle.wf(),
        old(pos).wf(),
        -AXIS_MAX <= axis <= AXIS_MAX,
        0 <= delta_ms <= MAX_DELTA,
    ensures
        final(pos).x == old(pos).x,
        final(pos).y == paddle_moved_y(old(pos).y as int, paddle.height as int, axis as int, delta_ms as int),
        paddle.height as int / 2 <= final(pos).y,
        final(pos).y + paddle.height as int / 2 <= ARENA_HEIGHT,
        final(pos).wf(),
{
    let vel: i64 = axis * PADDLE_SPEED;
    assert(-50_000_000_000 <= vel * delta_ms <= 50_000_000_000) by (nonlinear_arith)
        requires
            -50_000 <= vel <= 50_000,
            0 <= delta_ms <= 60_000,
    ;
    let proposed: i64 = pos.y + vel * delta_ms;
    let lo: i64 = paddle.height / 2;
    let hi: i64 = ARENA_HEIGHT - lo;
    pos.y = if proposed < lo {
        lo
    } else if proposed > hi {
        hi
    } else {
        proposed
    };
}

/// Ball integration: advances the position by velocity times elapsed time,
/// exactly and with no bounds checking (leaving the arena is the scoring
/// system's concern).
pub fn move_ball(ball: &Ball, pos: &mut Position, delta_ms: i64)
    requires
        ball.wf(),
        old(pos).wf(),
        0 <= delta_ms <= MAX_DELTA,
    ensures
        final(pos).x == integrated(old(pos).x as int, ball.velocity.x as int, delta_ms as int),
        final(pos).y == integrated(old(pos).y as int, ball.velocity.y as int, delta_ms as int),
{
    assert(-60_000_000_000 <= ball.velocity.x * delta_ms <= 60_000_000_000) by (nonlinear_arith)
        requires
            -1_000_000 <= ball.velocity.x <= 1_000_000,
            0 <= delta_ms <= 60_000,
    ;
    assert(-60_000_000_000 <= ball.velocity.y * delta_ms <= 60_000_000_000) by (nonlinear_arith)
        requires
            -1_000_000 <= ball.velocity.y <= 1_000_000,
            0 <= delta_ms <= 60_000,
    ;
    pos.x = pos.x + ball.velocity.x * delta_ms;
    pos.y = pos.y + ball.velocity.y * delta_ms;
}

/// Wall pass of the bounce system: reflects the vertical velocity when the
/// ball touches a horizontal wall while moving toward it. The horizontal
/// velocity and the radius are untouched, and afterwards a ball against or
/// beyond a wall always moves back toward the arena.
pub fn bounce_walls(ball: &mut Ball, pos: &Position)
    requires
        old(ball).wf(),
    ensures
        final(ball).velocity.y == wall_bounced_vy(pos.y as int, old(ball).radius as int, old(ball).velocity.y as int),
        final(ball).velocity.x == old(ball).velocity.x,
        final(ball).radius == old(ball).radius,
        final(ball).wf(),
        pos.y - final(ball).radius <= 0 ==> final(ball).velocity.y >= 0,
        pos.y + final(ball).radius >= ARENA_HEIGHT ==> final(ball).velocity.y <= 0,
{
    if pos.y <= ball.radius && ball.velocity.y < 0 {
        ball.velocity.y = -ball.velocity.y;
    } else if pos.y >= ARENA_HEIGHT - ball.radius && ball.velocity.y > 0 {
        ball.velocity.y = -ball.velocity.y;
    }
}

/// One paddle's pass of the bounce system: reflects the horizontal velocity
/// when the ball overlaps this paddle's box while moving toward its side.
/// The vertical velocity and the radius are untouched.
pub fn bounce_paddle(ball: &mut Ball, ball_pos: &Position, paddle: &Paddle, paddle_pos: &Position)
    requires
        old(ball).wf(),
        paddle.wf(),
        paddle_pos.wf(),
    ensures
        final(ball).velocity.x == paddle_bounced_vx(
            old(ball).velocity.x as int,
            ball_pos.x as int,
            ball_pos.y as int,
            old(ball).radius as int,
            *paddle,
            *paddle_pos,
        ),
        final(ball).velocity.y == old(ball).velocity.y,
        final(ball).radius == old(ball).radius,
        final(ball).wf(),
{
    let toward = match paddle.side {
        Side::Left => ball.velocity.x < 0,
        Side::Right => ball.velocity.x > 0,
    };
    if toward {
        let half_w: i64 = paddle.width / 2;
        let half_h: i64 = paddle.height / 2;
        if paddle_pos.x - half_w - ball.radius <= ball_pos.x
            && ball_pos.x <= paddle_pos.x + half_w + ball.radius
            && paddle_pos.y - half_h - ball.radius <= ball_pos.y
            && ball_pos.y <= paddle_pos.y + half_h + ball.radius
        {
            ball.velocity.x = -ball.velocity.x;
        }
    }
}

/// The whole bounce system for one frame: the wall pass, then the left
/// paddle, then the right paddle. Paddle passes never touch the vertical
/// velocity, so the wall guarantee survives the composition.
pub fn bounce(ball: &mut Ball, ball_pos: &Position, left: &PaddleEntity, right: &PaddleEntity)
    requires
        old(ball).wf(),
        left.paddle.wf(),
        left.pos.wf(),
        right.paddle.wf(),
        right.pos.wf(),
    ensures
        final(ball).velocity.y == wall_bounced_vy(ball_pos.y as int, old(ball).radius as int, old(ball).velocity.y as int),
        final(ball).velocity.x == bounced_vx(
            old(ball).velocity.x as int,
            ball_pos.x as int,
            ball_pos.y as int,
            old(ball).radius as int,
            *left,
            *right,
        ),
        final(ball).radius == old(ball).radius,
        final(ball).wf(),
        ball_pos.y - final(ball).radius <= 0 ==> final(ball).velocity.y >= 0,
        ball_pos.y + final(ball).radius >= ARENA_HEIGHT ==> final(ball).velocity.y <= 0,
{
    bounce_walls(ball, ball_pos);
    bounce_paddle(ball, ball_pos, &left.paddle, &left.pos);
    bounce_paddle(ball, ball_pos, &right.paddle, &right.pos);
}

/// Scoring detection: the side awarded a point for this ball, if it has
/// fully crossed the left or right arena edge.
pub fn winner(ball: &Ball, pos: &Position) -> (w: Option<Side>)
    requires
        ball.wf(),
    ensures
        w == winner_side(pos.x as int, ball.radius as int),
{
    if pos.x < -ball.radius {
        Some(Side::Right)
    } else if pos.x > ARENA_WIDTH + ball.radius {
        Some(Side::Left)
    } else {
        None
    }
}

} // verus!
