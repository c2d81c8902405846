use vstd::prelude::*;

use crate::components::{Position, Shape, Velocity, BALL_RADIUS};
use crate::geometry::{abs, collide_with_side, collide_with_side_spec, Aabb2d, BoundingCircle, Collision, Vec2};

verus! {

/// The velocity after a hit on `side`: a hit on the left or right forces the horizontal
/// direction away from that side, a hit on the top or bottom forces the vertical one. The
/// magnitude is kept and the other axis is left alone.
pub open spec fn resolve(v: Velocity, side: Collision) -> Velocity {
    match side {
        Collision::Left => Velocity(Vec2 { x: -abs(v.0.x as int) as i64, y: v.0.y }),
        Collision::Right => Velocity(Vec2 { x: abs(v.0.x as int) as i64, y: v.0.y }),
        Collision::Top => Velocity(Vec2 { x: v.0.x, y: abs(v.0.y as int) as i64 }),
        Collision::Bottom => Velocity(Vec2 { x: v.0.x, y: -abs(v.0.y as int) as i64 }),
    }
}

/// The bounding circle of a ball centered at `p`.
pub open spec fn ball_circle(p: Position) -> BoundingCircle {
    BoundingCircle { center: p.0, radius: BALL_RADIUS }
}

/// The box of an entity at `p` with half-extents `s`.
pub open spec fn body_box(p: Position, s: Shape) -> Aabb2d {
    Aabb2d { center: p.0, half_size: s.0 }
}

/// The ball's velocity after checking it, in order, against each body of `others`.
pub open spec fn resolve_all(v: Velocity, ball: Position, others: Seq<(Position, Shape)>) -> Velocity
    decreases others.len(),
{
    if others.len() == 0 {
        v
    } else {
        let before = resolve_all(v, ball, others.drop_last());
        let (p, s) = others.last();
        match collide_with_side_spec(ball_circle(ball), body_box(p, s)) {
            Some(side) => resolve(before, side),
            None => before,
        }
    }
}

pub open spec fn bodies_wf(others: Seq<(Position, Shape)>) -> bool {
    forall|i: int| 0 <= i < others.len() ==> (#[trigger] others[i]).1.wf()
}

/// Applies the rule for one hit to `velocity`.
pub fn apply_collision(velocity: &mut Velocity, side: Collision)
    requires
        old(velocity).wf(),
    ensures
        *final(velocity) == resolve(*old(velocity), side),
        final(velocity).wf(),
{
    match side {
        Collision::Left => {
            let a = if velocity.0.x < 0 { -velocity.0.x } else { velocity.0.x };
            velocity.0.x = -a;
        },
        Collision::Right => {
            let a = if velocity.0.x < 0 { -velocity.0.x } else { velocity.0.x };
            velocity.0.x = a;
        },
        Collision::Top => {
            let a = if velocity.0.y < 0 { -velocity.0.y } else { velocity.0.y };
            velocity.0.y = a;
        },
        Collision::Bottom => {
            let a = if velocity.0.y < 0 { -velocity.0.y } else { velocity.0.y };
            velocity.0.y = -a;
        },
    }
}

/// Checks the ball at `ball` against each body of `others` and turns its velocity away from
/// every side it hits. The ball itself is not moved out of any overlap.
pub fn handle_collisions(velocity: &mut Velocity, ball: &Position, others: &[(Position, Shape)])
    requires
        old(velocity).wf(),
        bodies_wf(others@),
    ensures
        *final(velocity) == resolve_all(*old(velocity), *ball, others@),
        final(velocity).wf(),
{
    let circle = BoundingCircle::new(ball.0, BALL_RADIUS);
    let mut i: usize = 0;
    while i < others.len()
        invariant
            0 <= i <= others.len(),
            bodies_wf(others@),
            circle == ball_circle(*ball),
            velocity.wf(),
            *velocity == resolve_all(*old(velocity), *ball, others@.take(i as int)),
        decreases others.len() - i,
    {
        let (p, s) = others[i];
        assert(others@.take(i as int + 1).drop_last() == others@.take(i as int));
        assert(others@.take(i as int + 1).last() == others@[i as int]);
        assert(s.wf());
        if let Some(side) = collide_with_side(circle, Aabb2d::new(p.0, s.0)) {
            apply_collision(velocity, side);
        }
        i = i + 1;
    }
    assert(others@.take(others@.len() as int) == others@);
}

} // verus!
