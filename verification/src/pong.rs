//! The pong simulation: paddle motion from a directional signal, velocity
//! integration of the ball, collision response against the static colliders,
//! and the exit-condition check against the bottom wall.
//!
//! Space is in micro-units (one millionth of a world unit), velocities in
//! micro-units per millisecond, time in milliseconds, so every step of the
//! loop is exact integer arithmetic.

use vstd::prelude::*;

use crate::geometry::Aabb;
use crate::geometry::Circle;
use crate::geometry::Collision;
use crate::geometry::Vec2;
use crate::geometry::ball_collision;
use crate::geometry::clamp_i64;
use crate::geometry::clamp_int;
use crate::geometry::collide;

verus! {

/// Micro-units per world unit.
pub const MICRO: i64 = 1_000_000;

/// Half the paddle's width (the paddle is 100 by 30 units).
pub const PADDLE_HALF_WIDTH: i64 = 50 * MICRO;

/// Half the paddle's height.
pub const PADDLE_HALF_HEIGHT: i64 = 15 * MICRO;

/// Paddle speed: 500 units per second, in micro-units per millisecond.
pub const PADDLE_SPEED: i64 = 500_000;

/// The paddle sits this far above the bottom of the surface.
pub const PADDLE_RAISE: i64 = 100 * MICRO;

/// Ball radius (the ball's diameter is 30 units).
pub const BALL_RADIUS: i64 = 15 * MICRO;

/// X of the ball's fixed spawn point.
pub const BALL_SPAWN_X: i64 = 0;

/// Y of the ball's fixed spawn point (50 units up).
pub const BALL_SPAWN_Y: i64 = 50 * MICRO;

/// Each component of the ball's initial velocity: speed 500 units per second
/// along the normalized diagonal `(0.5, 0.5)`, rounded to the fixed-point
/// grid (353.55 units per second per axis).
pub const BALL_DIAG_SPEED: i64 = 353_550;

/// Half-thickness of the left and right walls (1 unit thick).
pub const SIDE_WALL_HALF_THICKNESS: i64 = 500_000;

/// Half-thickness of the top and bottom walls (2 units thick).
pub const FLAT_WALL_HALF_THICKNESS: i64 = MICRO;

/// Positions saturate at this magnitude (a million world units): integration
/// is exact anywhere inside it.
pub const POS_LIMIT: i64 = 1_000_000_000_000_000;

/// Largest velocity component magnitude the simulation admits.
pub const VEL_LIMIT: i64 = 1_000_000_000;

/// Largest delta time one frame may carry, in milliseconds.
pub const DT_LIMIT: u64 = 1_000_000;

/// The play surface bounds, derived from the window: symmetric about the
/// origin.
#[derive(Clone, Copy, PartialEq, Eq, Structural, Debug)]
pub struct Surface {
    /// Left bound.
    pub left: i64,
    /// Right bound.
    pub right: i64,
    /// Top bound.
    pub top: i64,
    /// Bottom bound.
    pub bottom: i64,
}

/// The player's paddle; its size is fixed by the constants.
#[derive(Clone, Copy, PartialEq, Eq, Structural, Debug)]
pub struct Paddle {
    /// Center x, clamped to the surface.
    pub x: i64,
    /// Center y, fixed a little above the bottom.
    pub y: i64,
}

/// The ball: position and velocity; its radius is fixed by the constants.
#[derive(Clone, Copy, PartialEq, Eq, Structural, Debug)]
pub struct Ball {
    /// Center position in micro-units.
    pub pos: Vec2,
    /// Velocity in micro-units per millisecond.
    pub vel: Vec2,
}

/// The whole simulation state of one pong session.
#[derive(Clone, Copy, PartialEq, Eq, Structural, Debug)]
pub struct PongWorld {
    /// The play surface bounds.
    pub surface: Surface,
    /// The paddle.
    pub paddle: Paddle,
    /// The ball.
    pub ball: Ball,
}

/// A directional input signal: left, right, or neither.
#[derive(Clone, Copy, PartialEq, Eq, Structural, Debug)]
pub enum MoveDir {
    /// Move toward negative x.
    Left,
    /// No movement.
    Neutral,
    /// Move toward positive x.
    Right,
}

/// The sign a directional signal contributes: -1, 0 or +1.
pub open spec fn dir_sign(d: MoveDir) -> int {
    match d {
        MoveDir::Left => -1,
        MoveDir::Neutral => 0,
        MoveDir::Right => 1,
    }
}

impl Surface {
    /// Symmetric about the origin, wide enough for the paddle, and within
    /// the position bound.
    pub open spec fn wf(self) -> bool {
        &&& self.left == -self.right
        &&& self.bottom == -self.top
        &&& PADDLE_HALF_WIDTH <= self.right <= POS_LIMIT
        &&& 1 <= self.top <= POS_LIMIT
    }
}

impl PongWorld {
    /// The session invariant: surface well formed, paddle on its rail and
    /// inside its travel range, ball position and velocity bounded.
    pub open spec fn wf(self) -> bool {
        &&& self.surface.wf()
        &&& self.surface.left + PADDLE_HALF_WIDTH <= self.paddle.x <= self.surface.right
            - PADDLE_HALF_WIDTH
        &&& self.paddle.y == self.surface.bottom + PADDLE_RAISE
        &&& -POS_LIMIT <= self.ball.pos.x <= POS_LIMIT
        &&& -POS_LIMIT <= self.ball.pos.y <= POS_LIMIT
        &&& -VEL_LIMIT <= self.ball.vel.x <= VEL_LIMIT
        &&& -VEL_LIMIT <= self.ball.vel.y <= VEL_LIMIT
    }
}

/// The left wall's collider box.
pub open spec fn left_wall(s: Surface) -> Aabb {
    Aabb {
        center: Vec2 { x: s.left, y: 0 },
        half: Vec2 { x: SIDE_WALL_HALF_THICKNESS, y: s.top },
    }
}

/// The right wall's collider box.
pub open spec fn right_wall(s: Surface) -> Aabb {
    Aabb {
        center: Vec2 { x: s.right, y: 0 },
        half: Vec2 { x: SIDE_WALL_HALF_THICKNESS, y: s.top },
    }
}

/// The top wall's collider box.
pub open spec fn top_wall(s: Surface) -> Aabb {
    Aabb {
        center: Vec2 { x: 0, y: s.top },
        half: Vec2 { x: s.right, y: FLAT_WALL_HALF_THICKNESS },
    }
}

/// The bottom wall's box: the exit surface, not a reflecting collider.
pub open spec fn bottom_wall(s: Surface) -> Aabb {
    Aabb {
        center: Vec2 { x: 0, y: s.bottom },
        half: Vec2 { x: s.right, y: FLAT_WALL_HALF_THICKNESS },
    }
}

/// The paddle's collider box.
pub open spec fn paddle_box(p: Paddle) -> Aabb {
    Aabb {
        center: Vec2 { x: p.x, y: p.y },
        half: Vec2 { x: PADDLE_HALF_WIDTH, y: PADDLE_HALF_HEIGHT },
    }
}

/// The ball as a circle.
pub open spec fn ball_circle(b: Ball) -> Circle {
    Circle { center: b.pos, radius: BALL_RADIUS }
}

/// The world a fresh session starts from, for the given half window
/// dimensions.
pub open spec fn initial_world(half_width: i64, half_height: i64) -> PongWorld {
    PongWorld {
        surface: Surface {
            left: (-half_width) as i64,
            right: half_width,
            top: half_height,
            bottom: (-half_height) as i64,
        },
        paddle: Paddle { x: 0, y: ((-half_height) + PADDLE_RAISE) as i64 },
        ball: Ball {
            pos: Vec2 { x: BALL_SPAWN_X, y: BALL_SPAWN_Y },
            vel: Vec2 { x: BALL_DIAG_SPEED, y: BALL_DIAG_SPEED },
        },
    }
}

/// Build a session's world from the window's half dimensions: the surface
/// bounds, the paddle at the center of its rail, and the ball at its spawn
/// point with the fixed initial velocity.
pub fn pong_setup(half_width: i64, half_height: i64) -> (w: PongWorld)
    requires
        PADDLE_HALF_WIDTH <= half_width <= POS_LIMIT,
        1 <= half_height <= POS_LIMIT,
    ensures
        w == initial_world(half_width, half_height),
        w.wf(),
{
    PongWorld {
        surface: Surface {
            left: -half_width,
            right: half_width,
            top: half_height,
            bottom: -half_height,
        },
        paddle: Paddle { x: 0, y: -half_height + PADDLE_RAISE },
        ball: Ball {
            pos: Vec2 { x: BALL_SPAWN_X, y: BALL_SPAWN_Y },
            vel: Vec2 { x: BALL_DIAG_SPEED, y: BALL_DIAG_SPEED },
        },
    }
}

/// Map the two pressed flags of the directional keys to a signal: the two
/// directions cancel.
pub fn direction_from_input(left_pressed: bool, right_pressed: bool) -> (d: MoveDir)
    ensures
        dir_sign(d) == (if right_pressed {
            1int
        } else {
            0int
        }) - (if left_pressed {
            1int
        } else {
            0int
        }),
{
    match (left_pressed, right_pressed) {
        (true, false) => MoveDir::Left,
        (false, true) => MoveDir::Right,
        _ => MoveDir::Neutral,
    }
}

/// The world after the paddle moved by a signal of the given sign for `dt`
/// milliseconds: the new x is clamped to the travel range the surface leaves
/// for the paddle.
pub open spec fn moved_paddle(w: PongWorld, sign: int, dt: u64) -> PongWorld {
    PongWorld {
        paddle: Paddle {
            x: clamp_int(
                w.paddle.x + sign * PADDLE_SPEED * dt,
                w.surface.left + PADDLE_HALF_WIDTH,
                w.surface.right - PADDLE_HALF_WIDTH,
            ) as i64,
            y: w.paddle.y,
        },
        ..w
    }
}

/// The world after the ball's position advanced by its velocity for `dt`
/// milliseconds, saturating at the position bound.
pub open spec fn integrated(w: PongWorld, dt: u64) -> PongWorld {
    PongWorld {
        ball: Ball {
            pos: Vec2 {
                x: clamp_int(
                    w.ball.pos.x + w.ball.vel.x * dt,
                    -POS_LIMIT as int,
                    POS_LIMIT as int,
                ) as i64,
                y: clamp_int(
                    w.ball.pos.y + w.ball.vel.y * dt,
                    -POS_LIMIT as int,
                    POS_LIMIT as int,
                ) as i64,
            },
            vel: w.ball.vel,
        },
        ..w
    }
}

/// Advance the paddle by the directional signal for one frame, clamped to
/// the travel range the surface leaves for it.
pub fn move_paddle(w: &mut PongWorld, dir: MoveDir, dt_ms: u64)
    requires
        old(w).wf(),
        dt_ms <= DT_LIMIT,
    ensures
        *final(w) == moved_paddle(*old(w), dir_sign(dir), dt_ms),
        final(w).wf(),
{
    let sign: i64 = match dir {
        MoveDir::Left => -1,
        MoveDir::Neutral => 0,
        MoveDir::Right => 1,
    };
    let dt: i64 = dt_ms as i64;
    assert(-500_000_i64 <= sign * PADDLE_SPEED <= 500_000_i64) by (nonlinear_arith)
        requires
            -1_i64 <= sign <= 1_i64,
    {}
    let paced: i64 = sign * PADDLE_SPEED;
    assert(-500_000_000_000_i64 <= paced * dt <= 500_000_000_000_i64) by (nonlinear_arith)
        requires
            -500_000_i64 <= paced <= 500_000_i64,
            0 <= dt <= 1_000_000_i64,
    {}
    let step: i64 = paced * dt;
    assert(step == dir_sign(dir) * PADDLE_SPEED * dt_ms) by (nonlinear_arith)
        requires
            step == (sign as int) * (PADDLE_SPEED as int) * (dt as int),
            sign == dir_sign(dir),
            dt == dt_ms,
    {}
    let lo = w.surface.left + PADDLE_HALF_WIDTH;
    let hi = w.surface.right - PADDLE_HALF_WIDTH;
    w.paddle.x = clamp_i64(w.paddle.x + step, lo, hi);
}

/// Integrate the ball's position by its velocity for one frame. Exact
/// wherever the result stays inside the position bound; it saturates there.
pub fn velocity_update(w: &mut PongWorld, dt_ms: u64)
    requires
        old(w).wf(),
        dt_ms <= DT_LIMIT,
    ensures
        *final(w) == integrated(*old(w), dt_ms),
        final(w).wf(),
{
    let dt: i64 = dt_ms as i64;
    assert(-1_000_000_000_000_000_i64 <= w.ball.vel.x * dt <= 1_000_000_000_000_000_i64)
        by (nonlinear_arith)
        requires
            -VEL_LIMIT <= w.ball.vel.x <= VEL_LIMIT,
            0 <= dt <= 1_000_000_i64,
    {}
    assert(-1_000_000_000_000_000_i64 <= w.ball.vel.y * dt <= 1_000_000_000_000_000_i64)
        by (nonlinear_arith)
        requires
            -VEL_LIMIT <= w.ball.vel.y <= VEL_LIMIT,
            0 <= dt <= 1_000_000_i64,
    {}
    let sx = w.ball.vel.x * dt;
    let sy = w.ball.vel.y * dt;
    w.ball.pos.x = clamp_i64(w.ball.pos.x + sx, -POS_LIMIT, POS_LIMIT);
    w.ball.pos.y = clamp_i64(w.ball.pos.y + sy, -POS_LIMIT, POS_LIMIT);
}

/// A velocity after striking one side: the component that opposes the side
/// flips; a component already departing is left alone.
pub open spec fn reflected(v: Vec2, side: Collision) -> Vec2 {
    match side {
        Collision::Left => if v.x > 0 {
            Vec2 { x: (-v.x) as i64, y: v.y }
        } else {
            v
        },
        Collision::Right => if v.x < 0 {
            Vec2 { x: (-v.x) as i64, y: v.y }
        } else {
            v
        },
        Collision::Top => if v.y < 0 {
            Vec2 { x: v.x, y: (-v.y) as i64 }
        } else {
            v
        },
        Collision::Bottom => if v.y > 0 {
            Vec2 { x: v.x, y: (-v.y) as i64 }
        } else {
            v
        },
    }
}

/// A velocity after one collision test: unchanged when there was none.
pub open spec fn response(v: Vec2, hit: Option<Collision>) -> Vec2 {
    match hit {
        Option::None => v,
        Option::Some(side) => reflected(v, side),
    }
}

/// A velocity after testing the ball at `pos` against one collider box.
pub open spec fn vel_after_collider(pos: Vec2, v: Vec2, b: Aabb) -> Vec2 {
    response(v, collide(Circle { center: pos, radius: BALL_RADIUS }, b))
}

/// The ball's velocity after one collision pass: each collider (left wall,
/// right wall, top wall, paddle) is tested and applied independently, in
/// that order.
pub open spec fn collided_velocity(w: PongWorld) -> Vec2 {
    vel_after_collider(
        w.ball.pos,
        vel_after_collider(
            w.ball.pos,
            vel_after_collider(
                w.ball.pos,
                vel_after_collider(w.ball.pos, w.ball.vel, left_wall(w.surface)),
                right_wall(w.surface),
            ),
            top_wall(w.surface),
        ),
        paddle_box(w.paddle),
    )
}

/// Apply one collision test's outcome to a velocity.
fn apply_response(v: Vec2, hit: Option<Collision>) -> (r: Vec2)
    requires
        -VEL_LIMIT <= v.x <= VEL_LIMIT,
        -VEL_LIMIT <= v.y <= VEL_LIMIT,
    ensures
        r == response(v, hit),
        -VEL_LIMIT <= r.x <= VEL_LIMIT,
        -VEL_LIMIT <= r.y <= VEL_LIMIT,
{
    match hit {
        None => v,
        Some(side) => {
            let mut reflect_x = false;
            let mut reflect_y = false;
            match side {
                Collision::Left => reflect_x = v.x > 0,
                Collision::Right => reflect_x = v.x < 0,
                Collision::Top => reflect_y = v.y < 0,
                Collision::Bottom => reflect_y = v.y > 0,
            }
            Vec2 {
                x: if reflect_x {
                    -v.x
                } else {
                    v.x
                },
                y: if reflect_y {
                    -v.y
                } else {
                    v.y
                },
            }
        },
    }
}

/// The world after one collision pass: only the ball's velocity changes.
pub open spec fn collided(w: PongWorld) -> PongWorld {
    with_velocity(w, collided_velocity(w))
}

/// One collision pass: test the ball against every static collider (left,
/// right and top walls, then the paddle) and reflect the velocity component
/// that opposes each struck side. Each collision is applied independently;
/// there is no early exit.
pub fn check_collision(w: &mut PongWorld)
    requires
        old(w).wf(),
    ensures
        *final(w) == collided(*old(w)),
        final(w).wf(),
{
    let circle = Circle { center: w.ball.pos, radius: BALL_RADIUS };
    let lw = Aabb {
        center: Vec2 { x: w.surface.left, y: 0 },
        half: Vec2 { x: SIDE_WALL_HALF_THICKNESS, y: w.surface.top },
    };
    let rw = Aabb {
        center: Vec2 { x: w.surface.right, y: 0 },
        half: Vec2 { x: SIDE_WALL_HALF_THICKNESS, y: w.surface.top },
    };
    let tw = Aabb {
        center: Vec2 { x: 0, y: w.surface.top },
        half: Vec2 { x: w.surface.right, y: FLAT_WALL_HALF_THICKNESS },
    };
    let pb = Aabb {
        center: Vec2 { x: w.paddle.x, y: w.paddle.y },
        half: Vec2 { x: PADDLE_HALF_WIDTH, y: PADDLE_HALF_HEIGHT },
    };
    let mut vel = w.ball.vel;
    vel = apply_response(vel, ball_collision(&circle, &lw));
    vel = apply_response(vel, ball_collision(&circle, &rw));
    vel = apply_response(vel, ball_collision(&circle, &tw));
    vel = apply_response(vel, ball_collision(&circle, &pb));
    w.ball.vel = vel;
}

/// Whether the ball has struck the exit surface from inside the play area: a
/// `Top`-side collision against the bottom wall.
pub open spec fn exit_hit(w: PongWorld) -> bool {
    collide(ball_circle(w.ball), bottom_wall(w.surface)) == Option::Some(Collision::Top)
}

/// Test the ball against the designated exit surface. True exactly when the
/// collision classifies as `Top`: the ball reached the bottom wall from
/// inside the play area.
pub fn exit_conditions(w: &PongWorld) -> (ended: bool)
    requires
        w.wf(),
    ensures
        ended == exit_hit(*w),
{
    let circle = Circle { center: w.ball.pos, radius: BALL_RADIUS };
    let bw = Aabb {
        center: Vec2 { x: 0, y: w.surface.bottom },
        half: Vec2 { x: w.surface.right, y: FLAT_WALL_HALF_THICKNESS },
    };
    match ball_collision(&circle, &bw) {
        Some(Collision::Top) => true,
        _ => false,
    }
}

/// The same world with another ball velocity.
pub open spec fn with_velocity(w: PongWorld, v: Vec2) -> PongWorld {
    PongWorld { ball: Ball { pos: w.ball.pos, vel: v }, ..w }
}

/// Reflecting off the same side twice is the same as reflecting once: a
/// component the first reflection turned away is already departing, and the
/// rule leaves departing components alone.
pub proof fn lemma_reflection_idempotent(v: Vec2, side: Collision)
    requires
        -VEL_LIMIT <= v.x <= VEL_LIMIT,
        -VEL_LIMIT <= v.y <= VEL_LIMIT,
    ensures
        reflected(reflected(v, side), side) == reflected(v, side),
{
}

/// A whole collision pass is idempotent while the ball does not move: if a
/// frame leaves the ball where it was, a second pass against the same
/// colliders leaves the once-reflected velocity unchanged — the ball does
/// not flip in place.
#[verifier::rlimit(100)]
#[verifier::spinoff_prover]
pub proof fn lemma_collision_pass_idempotent(w: PongWorld)
    requires
        w.wf(),
    ensures
        collided_velocity(with_velocity(w, collided_velocity(w))) == collided_velocity(w),
{
    let v = w.ball.vel;
    let pos = w.ball.pos;
    let h1 = collide(Circle { center: pos, radius: BALL_RADIUS }, left_wall(w.surface));
    let h2 = collide(Circle { center: pos, radius: BALL_RADIUS }, right_wall(w.surface));
    let h3 = collide(Circle { center: pos, radius: BALL_RADIUS }, top_wall(w.surface));
    let h4 = collide(Circle { center: pos, radius: BALL_RADIUS }, paddle_box(w.paddle));
    let a = response(response(response(response(v, h1), h2), h3), h4);
    assert(collided_velocity(w) == a);
    assert(with_velocity(w, a).ball.pos == pos);
    assert(with_velocity(w, a).surface == w.surface);
    assert(with_velocity(w, a).paddle == w.paddle);
    let b = response(response(response(response(a, h1), h2), h3), h4);
    assert(collided_velocity(with_velocity(w, a)) == b);
    assert(b == a);
}

} // verus!
