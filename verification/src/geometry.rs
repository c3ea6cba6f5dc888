//! Circle-versus-axis-aligned-box intersection and penetration-side
//! classification.
//!
//! All coordinates are integers (micro-units). The squared-distance test is
//! computed in 128-bit arithmetic, so it is exact; `WORLD_BOUND` keeps every
//! intermediate value far inside the 128-bit range.

use vstd::prelude::*;

verus! {

/// Largest magnitude a coordinate, radius or half-extent may have.
pub const WORLD_BOUND: i64 = 0x2000_0000_0000_0000;

/// A point or vector in the plane, in micro-units.
#[derive(Clone, Copy, PartialEq, Eq, Structural, Debug)]
pub struct Vec2 {
    pub x: i64,
    pub y: i64,
}

/// The side of a box that a ball struck.
#[derive(Clone, Copy, PartialEq, Eq, Structural, Debug)]
pub enum Collision {
    Left,
    Right,
    Top,
    Bottom,
}

/// A ball: a circle given by its center and radius.
#[derive(Clone, Copy, PartialEq, Eq, Structural, Debug)]
pub struct Circle {
    pub center: Vec2,
    pub radius: i64,
}

/// An axis-aligned box given by its center and half-extents.
#[derive(Clone, Copy, PartialEq, Eq, Structural, Debug)]
pub struct Aabb {
    pub center: Vec2,
    pub half: Vec2,
}

/// Magnitude of an integer.
pub open spec fn abs_int(v: int) -> int {
    if v < 0 {
        -v
    } else {
        v
    }
}

/// `v` held to the interval `[lo, hi]`.
pub open spec fn clamp_int(v: int, lo: int, hi: int) -> int {
    if v < lo {
        lo
    } else if v > hi {
        hi
    } else {
        v
    }
}

impl Vec2 {
    /// Both coordinates within the world bound.
    pub open spec fn wf(self) -> bool {
        &&& -WORLD_BOUND <= self.x <= WORLD_BOUND
        &&& -WORLD_BOUND <= self.y <= WORLD_BOUND
    }
}

impl Circle {
    pub open spec fn wf(self) -> bool {
        &&& self.center.wf()
        &&& 0 <= self.radius <= WORLD_BOUND
    }
}

impl Aabb {
    pub open spec fn wf(self) -> bool {
        &&& self.center.wf()
        &&& 0 <= self.half.x <= WORLD_BOUND
        &&& 0 <= self.half.y <= WORLD_BOUND
    }
}

/// X coordinate of the point of the box closest to the ball's center.
pub open spec fn closest_x(c: Circle, b: Aabb) -> int {
    clamp_int(c.center.x as int, b.center.x - b.half.x, b.center.x + b.half.x)
}

/// Y coordinate of the point of the box closest to the ball's center.
pub open spec fn closest_y(c: Circle, b: Aabb) -> int {
    clamp_int(c.center.y as int, b.center.y - b.half.y, b.center.y + b.half.y)
}

/// X component of the vector from the closest box point to the ball's center.
pub open spec fn offset_x(c: Circle, b: Aabb) -> int {
    c.center.x - closest_x(c, b)
}

/// Y component of the vector from the closest box point to the ball's center.
pub open spec fn offset_y(c: Circle, b: Aabb) -> int {
    c.center.y - closest_y(c, b)
}

/// Squared distance from the ball's center to the box.
pub open spec fn dist_sq(c: Circle, b: Aabb) -> int {
    offset_x(c, b) * offset_x(c, b) + offset_y(c, b) * offset_y(c, b)
}

/// The ball and the box intersect (touching counts).
pub open spec fn intersects(c: Circle, b: Aabb) -> bool {
    dist_sq(c, b) <= c.radius * c.radius
}

/// Which side of the box an offset vector points away from. Ties in magnitude
/// fall through to the vertical branch: horizontal classification requires a
/// strictly larger `|x|`.
pub open spec fn classify(ox: int, oy: int) -> Collision {
    if abs_int(ox) > abs_int(oy) {
        if ox < 0 {
            Collision::Left
        } else {
            Collision::Right
        }
    } else if oy > 0 {
        Collision::Top
    } else {
        Collision::Bottom
    }
}

/// Full collision test: `None` when the shapes do not intersect, otherwise
/// the struck side. The intersection test comes first, since a center inside
/// the box has offset `(0, 0)` and the tie-break alone would answer `Bottom`.
pub open spec fn collide(c: Circle, b: Aabb) -> Option<Collision> {
    if intersects(c, b) {
        Option::Some(classify(offset_x(c, b), offset_y(c, b)))
    } else {
        Option::None
    }
}

/// `v` held to the interval `[lo, hi]`.
pub fn clamp_i64(v: i64, lo: i64, hi: i64) -> (r: i64)
    requires
        lo <= hi,
    ensures
        r == clamp_int(v as int, lo as int, hi as int),
{
    if v < lo {
        lo
    } else if v > hi {
        hi
    } else {
        v
    }
}

/// Check the ball against one box; answer the struck side, or `None` when the
/// shapes do not intersect.
pub fn ball_collision(ball: &Circle, bounding_box: &Aabb) -> (r: Option<Collision>)
    requires
        ball.wf(),
        bounding_box.wf(),
    ensures
        r == collide(*ball, *bounding_box),
{
    let cx = clamp_i64(
        ball.center.x,
        bounding_box.center.x - bounding_box.half.x,
        bounding_box.center.x + bounding_box.half.x,
    );
    let cy = clamp_i64(
        ball.center.y,
        bounding_box.center.y - bounding_box.half.y,
        bounding_box.center.y + bounding_box.half.y,
    );
    let dx: i128 = ball.center.x as i128 - cx as i128;
    let dy: i128 = ball.center.y as i128 - cy as i128;
    assert(0 <= dx * dx <= 0x2400_0000_0000_0000_0000_0000_0000_0000_i128) by (nonlinear_arith)
        requires
            -0x6000_0000_0000_0000_i128 <= dx <= 0x6000_0000_0000_0000_i128,
    {}
    assert(0 <= dy * dy <= 0x2400_0000_0000_0000_0000_0000_0000_0000_i128) by (nonlinear_arith)
        requires
            -0x6000_0000_0000_0000_i128 <= dy <= 0x6000_0000_0000_0000_i128,
    {}
    let d2: i128 = dx * dx + dy * dy;
    assert(0 <= (ball.radius as i128) * (ball.radius as i128)
        <= 0x1000_0000_0000_0000_0000_0000_0000_0000_i128) by (nonlinear_arith)
        requires
            0 <= ball.radius as i128 <= 0x2000_0000_0000_0000_i128,
    {}
    let r2: i128 = ball.radius as i128 * ball.radius as i128;
    proof {
        assert(dx == offset_x(*ball, *bounding_box));
        assert(dy == offset_y(*ball, *bounding_box));
        assert(d2 == dist_sq(*ball, *bounding_box));
        assert(r2 == ball.radius * ball.radius);
    }
    if d2 > r2 {
        return None;
    }
    let ox = ball.center.x - cx;
    let oy = ball.center.y - cy;
    let ax = if ox < 0 { -ox } else { ox };
    let ay = if oy < 0 { -oy } else { oy };
    let side = if ax > ay {
        if ox < 0 {
            Collision::Left
        } else {
            Collision::Right
        }
    } else if oy > 0 {
        Collision::Top
    } else {
        Collision::Bottom
    };
    Some(side)
}

/// A ball whose center lies strictly outside the box expanded by the radius
/// (along either axis) does not collide with the box.
pub proof fn lemma_separated_no_collision(c: Circle, b: Aabb)
    requires
        c.wf(),
        b.wf(),
        abs_int(c.center.x - b.center.x) > b.half.x + c.radius
            || abs_int(c.center.y - b.center.y) > b.half.y + c.radius,
    ensures
        collide(c, b) is None,
{
    let ox = offset_x(c, b);
    let oy = offset_y(c, b);
    if abs_int(c.center.x - b.center.x) > b.half.x + c.radius {
        assert(abs_int(ox) > c.radius);
    } else {
        assert(abs_int(oy) > c.radius);
    }
    assert(ox * ox + oy * oy > c.radius * c.radius) by (nonlinear_arith)
        requires
            abs_int(ox) > c.radius || abs_int(oy) > c.radius,
            c.radius >= 0,
    {}
}

/// When the offset's components tie in magnitude, the classification is
/// vertical: a collision is reported as `Top` or `Bottom`, never `Left` or
/// `Right`.
pub proof fn lemma_tied_offsets_vertical(c: Circle, b: Aabb)
    requires
        intersects(c, b),
        abs_int(offset_x(c, b)) == abs_int(offset_y(c, b)),
    ensures
        collide(c, b) == Option::Some(Collision::Top)
            || collide(c, b) == Option::Some(Collision::Bottom),
{
}

} // verus!
