use vstd::prelude::*;

verus! {

/// A point or offset in the plane, in thousandths of a world unit.
#[derive(Clone, Copy, Debug, PartialEq, Eq, Structural)]
pub struct Vec2 {
    pub x: i64,
    pub y: i64,
}

impl Vec2 {
    pub fn new(x: i64, y: i64) -> (r: Vec2)
        ensures
            r.x == x,
            r.y == y,
    {
        Vec2 { x, y }
    }
}

/// `v` clamped into the range of `i64`.
pub open spec fn saturate(v: int) -> int {
    if v > i64::MAX {
        i64::MAX as int
    } else if v < i64::MIN {
        i64::MIN as int
    } else {
        v
    }
}

pub fn saturate_i128(v: i128) -> (r: i64)
    ensures
        r == saturate(v as int),
{
    if v > i64::MAX as i128 {
        i64::MAX
    } else if v < i64::MIN as i128 {
        i64::MIN
    } else {
        v as i64
    }
}

pub open spec fn abs(v: int) -> int {
    if v < 0 { -v } else { v }
}

/// `v` clamped into `[lo, hi]`: below `lo` gives `lo`, above `hi` gives `hi`.
pub open spec fn clamp(v: int, lo: int, hi: int) -> int {
    if v < lo {
        lo
    } else if v > hi {
        hi
    } else {
        v
    }
}

/// A circle given by its center and radius.
#[derive(Clone, Copy, Debug, PartialEq, Eq, Structural)]
pub struct BoundingCircle {
    pub center: Vec2,
    pub radius: i64,
}

impl BoundingCircle {
    pub open spec fn wf(&self) -> bool {
        self.radius >= 0
    }

    pub fn new(center: Vec2, radius: i64) -> (r: BoundingCircle)
        ensures
            r.center == center,
            r.radius == radius,
    {
        BoundingCircle { center, radius }
    }
}

/// An axis-aligned rectangle given by its center and its half-extents.
#[derive(Clone, Copy, Debug, PartialEq, Eq, Structural)]
pub struct Aabb2d {
    pub center: Vec2,
    pub half_size: Vec2,
}

impl Aabb2d {
    pub open spec fn wf(&self) -> bool {
        self.half_size.x >= 0 && self.half_size.y >= 0
    }

    pub open spec fn min_x(&self) -> int {
        self.center.x - self.half_size.x
    }

    pub open spec fn max_x(&self) -> int {
        self.center.x + self.half_size.x
    }

    pub open spec fn min_y(&self) -> int {
        self.center.y - self.half_size.y
    }

    pub open spec fn max_y(&self) -> int {
        self.center.y + self.half_size.y
    }

    pub fn new(center: Vec2, half_size: Vec2) -> (r: Aabb2d)
        ensures
            r.center == center,
            r.half_size == half_size,
    {
        Aabb2d { center, half_size }
    }

    /// The point of the rectangle nearest to `p`, one axis at a time.
    pub open spec fn closest_spec(&self, p: Vec2) -> (int, int) {
        (clamp(p.x as int, self.min_x(), self.max_x()), clamp(p.y as int, self.min_y(), self.max_y()))
    }

    pub fn closest_point(&self, p: Vec2) -> (r: Vec2)
        requires
            self.wf(),
        ensures
            (r.x as int, r.y as int) == self.closest_spec(p),
    {
        Vec2 {
            x: clamp_axis(p.x, self.center.x, self.half_size.x),
            y: clamp_axis(p.y, self.center.y, self.half_size.y),
        }
    }
}

/// Clamps `v` into `[c - h, c + h]`; the result lies between `v` and `c`, so it fits.
fn clamp_axis(v: i64, c: i64, h: i64) -> (r: i64)
    requires
        h >= 0,
    ensures
        r == clamp(v as int, c - h, c + h),
{
    let lo: i128 = c as i128 - h as i128;
    let hi: i128 = c as i128 + h as i128;
    if (v as i128) < lo {
        lo as i64
    } else if (v as i128) > hi {
        hi as i64
    } else {
        v
    }
}

/// Offset from the rectangle's nearest point to the circle's center.
pub open spec fn offset_spec(ball: BoundingCircle, other: Aabb2d) -> (int, int) {
    let (cx, cy) = other.closest_spec(ball.center);
    (ball.center.x - cx, ball.center.y - cy)
}

/// The circle touches or overlaps the rectangle.
pub open spec fn intersects_spec(ball: BoundingCircle, other: Aabb2d) -> bool {
    let (dx, dy) = offset_spec(ball, other);
    dx * dx + dy * dy <= ball.radius * ball.radius
}

proof fn lemma_square_bound(d: int, r: int)
    requires
        0 <= r,
        abs(d) <= r,
    ensures
        0 <= d * d <= r * r,
{
    assert(0 <= d * d <= r * r) by (nonlinear_arith)
        requires
            0 <= r,
            -r <= d <= r,
    ;
}

proof fn lemma_square_exceeds(d: int, r: int)
    requires
        0 <= r,
        abs(d) > r,
    ensures
        d * d > r * r,
{
    assert(d * d > r * r) by (nonlinear_arith)
        requires
            0 <= r,
            d > r || d < -r,
    ;
}

/// Whether a circle and a rectangle touch or overlap.
pub fn intersects(ball: &BoundingCircle, other: &Aabb2d) -> (r: bool)
    requires
        ball.wf(),
        other.wf(),
    ensures
        r == intersects_spec(*ball, *other),
{
    let closest = other.closest_point(ball.center);
    let dx: i128 = ball.center.x as i128 - closest.x as i128;
    let dy: i128 = ball.center.y as i128 - closest.y as i128;
    let r: i128 = ball.radius as i128;
    if dx > r || dx < -r {
        proof {
            lemma_square_exceeds(dx as int, r as int);
            assert(dy * dy >= 0) by (nonlinear_arith);
        }
        return false;
    }
    if dy > r || dy < -r {
        proof {
            lemma_square_exceeds(dy as int, r as int);
            assert(dx * dx >= 0) by (nonlinear_arith);
        }
        return false;
    }
    proof {
        lemma_square_bound(dx as int, r as int);
        lemma_square_bound(dy as int, r as int);
        assert(r * r <= i64::MAX * i64::MAX) by (nonlinear_arith)
            requires
                0 <= r <= i64::MAX,
        ;
    }
    dx * dx + dy * dy <= r * r
}

/// The side of a rectangle that a circle hit.
#[derive(Clone, Copy, Debug, PartialEq, Eq, Structural)]
pub enum Collision {
    Left,
    Right,
    Top,
    Bottom,
}

/// The side named by an offset from the rectangle to the circle: the axis with the larger
/// magnitude wins, and a tie goes to the vertical axis.
pub open spec fn side_of(dx: int, dy: int) -> Collision {
    if abs(dx) > abs(dy) {
        if dx > 0 {
            Collision::Right
        } else {
            Collision::Left
        }
    } else if dy > 0 {
        Collision::Top
    } else {
        Collision::Bottom
    }
}

pub open spec fn collide_with_side_spec(ball: BoundingCircle, other: Aabb2d) -> Option<Collision> {
    if intersects_spec(ball, other) {
        let (dx, dy) = offset_spec(ball, other);
        Some(side_of(dx, dy))
    } else {
        None
    }
}

/// The side of `other` that `ball` hit, or `None` where they do not touch.
pub fn collide_with_side(ball: BoundingCircle, other: Aabb2d) -> (r: Option<Collision>)
    requires
        ball.wf(),
        other.wf(),
    ensures
        r == collide_with_side_spec(ball, other),
{
    if !intersects(&ball, &other) {
        return None;
    }
    let closest = other.closest_point(ball.center);
    let dx: i128 = ball.center.x as i128 - closest.x as i128;
    let dy: i128 = ball.center.y as i128 - closest.y as i128;
    let ax: i128 = if dx < 0 { -dx } else { dx };
    let ay: i128 = if dy < 0 { -dy } else { dy };
    let side = if ax > ay {
        if dx > 0 {
            Collision::Right
        } else {
            Collision::Left
        }
    } else if dy > 0 {
        Collision::Top
    } else {
        Collision::Bottom
    };
    Some(side)
}

} // verus!
