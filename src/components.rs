use vstd::prelude::*;

use crate::geometry::Vec2;

verus! {

/// Thousandths of a world unit in one world unit: every length is held in this fixed-point scale,
/// and one thousandth of a second of elapsed time moves the ball by one thousandth of a unit.
pub const SCALE: i64 = 1000;

/// World units the ball travels per tick for each unit of velocity.
pub const BALL_SPEED: i64 = 5;

pub const BALL_SIZE: i64 = 8 * SCALE;

/// Radius of the ball's bounding circle: half its size.
pub const BALL_RADIUS: i64 = 4 * SCALE;

/// World units a paddle travels per tick for each unit of velocity.
pub const PADDLE_SPEED: i64 = 6;

pub const PADDLE_WIDTH: i64 = 10 * SCALE;

pub const PADDLE_HEIGHT: i64 = 50 * SCALE;

/// Distance from a paddle to its side edge of the window.
pub const PADDLE_PADDING: i64 = 50 * SCALE;

pub const GUTTER_HEIGHT: i64 = 20 * SCALE;

/// Where an entity is, in thousandths of a world unit.
#[derive(Clone, Copy, Debug, PartialEq, Eq, Structural)]
pub struct Position(pub Vec2);

/// Direction and rate of motion; it is scaled by a speed constant when a position moves.
#[derive(Clone, Copy, Debug, PartialEq, Eq, Structural)]
pub struct Velocity(pub Vec2);

/// Half-extents of an entity's axis-aligned box, in thousandths of a world unit.
#[derive(Clone, Copy, Debug, PartialEq, Eq, Structural)]
pub struct Shape(pub Vec2);

impl Velocity {
    /// Each component has a magnitude that an `i64` holds.
    pub open spec fn wf(&self) -> bool {
        self.0.x > i64::MIN && self.0.y > i64::MIN
    }
}

impl Shape {
    pub open spec fn wf(&self) -> bool {
        self.0.x >= 0 && self.0.y >= 0
    }
}

/// The one ball of the game.
#[derive(Clone, Copy, Debug, PartialEq, Eq, Structural)]
pub struct Ball {
    pub shape: Shape,
    pub velocity: Velocity,
    pub position: Position,
}

impl Ball {
    pub open spec fn wf(&self) -> bool {
        self.velocity.wf()
    }

    /// A ball at the origin moving with velocity `(x, y)`.
    pub fn new(x: i64, y: i64) -> (r: Ball)
        requires
            x > i64::MIN,
            y > i64::MIN,
        ensures
            r.wf(),
            r.shape.0 == (Vec2 { x: BALL_SIZE, y: BALL_SIZE }),
            r.velocity.0 == (Vec2 { x, y }),
            r.position.0 == (Vec2 { x: 0, y: 0 }),
    {
        Ball {
            shape: Shape(Vec2::new(BALL_SIZE, BALL_SIZE)),
            velocity: Velocity(Vec2::new(x, y)),
            position: Position(Vec2::new(0, 0)),
        }
    }
}

/// A paddle: the player's or the computer's.
#[derive(Clone, Copy, Debug, PartialEq, Eq, Structural)]
pub struct Paddle {
    pub shape: Shape,
    pub velocity: Velocity,
    pub position: Position,
}

impl Paddle {
    pub open spec fn wf(&self) -> bool {
        self.velocity.wf() && self.shape.wf()
    }

    /// A paddle at rest at `(x, y)`.
    pub fn new(x: i64, y: i64) -> (r: Paddle)
        ensures
            r.wf(),
            r.shape.0 == (Vec2 { x: PADDLE_WIDTH, y: PADDLE_HEIGHT }),
            r.position.0 == (Vec2 { x, y }),
            r.velocity.0 == (Vec2 { x: 0, y: 0 }),
    {
        Paddle {
            shape: Shape(Vec2::new(PADDLE_WIDTH, PADDLE_HEIGHT)),
            position: Position(Vec2::new(x, y)),
            velocity: Velocity(Vec2::new(0, 0)),
        }
    }
}

/// A static wall along the top or the bottom of the field.
#[derive(Clone, Copy, Debug, PartialEq, Eq, Structural)]
pub struct Gutter {
    pub shape: Shape,
    pub position: Position,
}

impl Gutter {
    pub open spec fn wf(&self) -> bool {
        self.shape.wf()
    }

    /// A gutter centered at `(x, y)` whose shape is `width` by the gutter height.
    pub fn new(x: i64, y: i64, width: i64) -> (r: Gutter)
        requires
            width >= 0,
        ensures
            r.wf(),
            r.shape.0 == (Vec2 { x: width, y: GUTTER_HEIGHT }),
            r.position.0 == (Vec2 { x, y }),
    {
        Gutter { shape: Shape(Vec2::new(width, GUTTER_HEIGHT)), position: Position(Vec2::new(x, y)) }
    }
}

} // verus!
