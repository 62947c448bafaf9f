//! Data carried by the simulation: paddle side, paddles, the ball, 2D
//! positions and velocities, and the pairing of a component with the
//! position of the entity it belongs to.

use vstd::prelude::*;

use crate::config::{
    ARENA_CENTER_X, ARENA_CENTER_Y, ARENA_HEIGHT, ARENA_WIDTH, BALL_RADIUS, BALL_VELOCITY_X,
    BALL_VELOCITY_Y, LEFT_PADDLE_X, MAX_COORD, MAX_SPEED, MAX_STEP, PADDLE_HEIGHT, PADDLE_WIDTH,
    RIGHT_PADDLE_X,
};

verus! {

/// The side of the arena a paddle defends.
#[derive(Clone, Copy, Debug, PartialEq, Eq, Structural)]
pub enum Side {
    Left,
    Right,
}

/// A 2D position in microunits. The `x` axis points from the left arena
/// edge to the right one, the `y` axis from the bottom edge up.
#[derive(Clone, Copy, Debug, PartialEq, Eq, Structural)]
pub struct Position {
    pub x: i64,
    pub y: i64,
}

impl Position {
    /// Both coordinates stay within the range the movement systems accept.
    pub open spec fn wf(self) -> bool {
        &&& -MAX_COORD <= self.x <= MAX_COORD
        &&& -MAX_COORD <= self.y <= MAX_COORD
    }
}

/// A 2D velocity in milliunits per second.
#[derive(Clone, Copy, Debug, PartialEq, Eq, Structural)]
pub struct Velocity {
    pub x: i64,
    pub y: i64,
}

/// A player-controlled rectangle confined to vertical motion along one
/// arena edge.
#[derive(Clone, Copy, Debug, PartialEq, Eq, Structural)]
pub struct Paddle {
    pub side: Side,
    pub width: i64,
    pub height: i64,
}

impl Paddle {
    /// The paddle fits inside the arena, so clamping its vertical extent to
    /// the arena is always possible.
    pub open spec fn wf(self) -> bool {
        &&& 0 <= self.width <= ARENA_WIDTH
        &&& 0 <= self.height <= ARENA_HEIGHT
    }

    /// A paddle of the configured dimensions defending the given side.
    pub fn new(side: Side) -> (p: Paddle)
        ensures
            p.side == side,
            p.width == PADDLE_WIDTH,
            p.height == PADDLE_HEIGHT,
            p.wf(),
    {
        Paddle { side, width: PADDLE_WIDTH, height: PADDLE_HEIGHT }
    }
}

/// A circular entity with velocity, bouncing between paddles and walls.
#[derive(Clone, Copy, Debug, PartialEq, Eq, Structural)]
pub struct Ball {
    pub velocity: Velocity,
    pub radius: i64,
}

impl Ball {
    /// The radius is non-negative and under half the arena height (so the
    /// ball can never touch both horizontal walls at once), and the
    /// velocity is within the accepted speed range.
    pub open spec fn wf(self) -> bool {
        &&& 0 <= self.radius
        &&& 2 * self.radius < ARENA_HEIGHT
        &&& -MAX_SPEED <= self.velocity.x <= MAX_SPEED
        &&& -MAX_SPEED <= self.velocity.y <= MAX_SPEED
    }
}

/// A paddle together with the position of the entity carrying it.
#[derive(Clone, Copy, Debug, PartialEq, Eq, Structural)]
pub struct PaddleEntity {
    pub paddle: Paddle,
    pub pos: Position,
}

/// A ball together with the position of the entity carrying it.
#[derive(Clone, Copy, Debug, PartialEq, Eq, Structural)]
pub struct BallEntity {
    pub ball: Ball,
    pub pos: Position,
}

impl BallEntity {
    /// The steady state a ball is in at every frame boundary: horizontally
    /// it has not left the scoring band (a ball further out was destroyed
    /// by the scoring system), vertically it is at most one frame's
    /// displacement beyond the arena, and whenever it rests against or
    /// beyond a horizontal wall its vertical velocity points back inside
    /// (the bounce system enforces this before the frame ends).
    pub open spec fn wf(self) -> bool {
        &&& self.ball.wf()
        &&& -self.ball.radius <= self.pos.x <= ARENA_WIDTH + self.ball.radius
        &&& -MAX_STEP <= self.pos.y <= ARENA_HEIGHT + MAX_STEP
        &&& self.pos.y - self.ball.radius <= 0 ==> self.ball.velocity.y >= 0
        &&& self.pos.y + self.ball.radius >= ARENA_HEIGHT ==> self.ball.velocity.y <= 0
    }
}

/// The ball the spawn scheduler creates: at the arena centre, with the
/// configured radius and initial velocity.
pub open spec fn initial_ball_entity() -> BallEntity {
    BallEntity {
        ball: Ball {
            velocity: Velocity { x: BALL_VELOCITY_X, y: BALL_VELOCITY_Y },
            radius: BALL_RADIUS,
        },
        pos: Position { x: ARENA_CENTER_X, y: ARENA_CENTER_Y },
    }
}

/// The paddle defending `side`, at its fixed horizontal station (half a
/// paddle width in from its edge) and vertically centred.
pub open spec fn initial_paddle_entity(side: Side) -> PaddleEntity {
    PaddleEntity {
        paddle: Paddle { side, width: PADDLE_WIDTH, height: PADDLE_HEIGHT },
        pos: Position {
            x: if side == Side::Left { LEFT_PADDLE_X } else { RIGHT_PADDLE_X },
            y: ARENA_CENTER_Y,
        },
    }
}

/// Creates the single ball at the arena centre with the configured initial
/// velocity and radius.
pub fn initialize_ball() -> (b: BallEntity)
    ensures
        b == initial_ball_entity(),
        b.wf(),
{
    BallEntity {
        ball: Ball {
            velocity: Velocity { x: BALL_VELOCITY_X, y: BALL_VELOCITY_Y },
            radius: BALL_RADIUS,
        },
        pos: Position { x: ARENA_CENTER_X, y: ARENA_CENTER_Y },
    }
}

/// Creates the two paddles, each at its fixed horizontal station and
/// vertically centred.
pub fn initialize_paddles() -> (r: (PaddleEntity, PaddleEntity))
    ensures
        r.0 == initial_paddle_entity(Side::Left),
        r.1 == initial_paddle_entity(Side::Right),
        r.0.paddle.wf() && r.0.pos.wf(),
        r.1.paddle.wf() && r.1.pos.wf(),
{
    let left = PaddleEntity {
        paddle: Paddle::new(Side::Left),
        pos: Position { x: LEFT_PADDLE_X, y: ARENA_CENTER_Y },
    };
    let right = PaddleEntity {
        paddle: Paddle::new(Side::Right),
        pos: Position { x: RIGHT_PADDLE_X, y: ARENA_CENTER_Y },
    };
    (left, right)
}

} // verus!
