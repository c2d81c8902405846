use vstd::prelude::*;

use crate::components::{Position, Velocity, BALL_SPEED, GUTTER_HEIGHT, PADDLE_HEIGHT, PADDLE_SPEED, SCALE};
use crate::geometry::{abs, saturate, saturate_i128, Vec2};

verus! {

/// Thousandths of a unit the ball travels per tick for each unit of velocity.
pub const BALL_STEP: i64 = BALL_SPEED * SCALE;

/// Thousandths of a unit a paddle travels per tick for each unit of velocity.
pub const PADDLE_STEP: i64 = PADDLE_SPEED * SCALE;

/// `v * speed`, computed wide enough that it cannot overflow.
fn step(v: i64, speed: i64) -> (r: i128)
    requires
        0 <= speed <= 1_000_000,
    ensures
        r == v * speed,
        -0x8000_0000_0000_0000 * 1_000_000 <= r <= 0x8000_0000_0000_0000 * 1_000_000,
{
    proof {
        assert(-0x8000_0000_0000_0000 * 1_000_000 <= v * speed <= 0x8000_0000_0000_0000 * 1_000_000)
            by (nonlinear_arith)
            requires
                0 <= speed <= 1_000_000,
                -0x8000_0000_0000_0000 <= v < 0x8000_0000_0000_0000,
        ;
    }
    v as i128 * speed as i128
}

/// One axis of a ball move: velocity times the ball speed, plus the elapsed time as a flat
/// offset, held within the range of `i64`.
///
/// The elapsed-time term is not a physical model: it is added to both axes whatever the
/// direction of travel, rather than scaling the velocity. It is kept on purpose, because the
/// game's observable motion (a ball moved by exactly 5.016 units on each axis by one 16 ms tick at
/// velocity (1, 1)) depends on it; scaling by elapsed time would be `p + v * speed * delta`.
pub open spec fn ball_axis_step(p: int, v: int, delta_millis: int) -> int {
    saturate(p + v * BALL_STEP + delta_millis)
}

/// Where a ball at `p` moving with `v` is after one tick of `delta_millis` milliseconds.
pub open spec fn ball_step(p: Position, v: Velocity, delta_millis: int) -> Position {
    Position(
        Vec2 {
            x: ball_axis_step(p.0.x as int, v.0.x as int, delta_millis) as i64,
            y: ball_axis_step(p.0.y as int, v.0.y as int, delta_millis) as i64,
        },
    )
}

/// Advances the ball by its velocity times the ball speed, plus the time elapsed since the last
/// tick in milliseconds as a flat offset on each axis (see `ball_axis_step`).
pub fn move_ball(position: &mut Position, velocity: &Velocity, delta_millis: u32)
    ensures
        *final(position) == ball_step(*old(position), *velocity, delta_millis as int),
{
    let x: i128 = position.0.x as i128 + step(velocity.0.x, BALL_STEP) + delta_millis as i128;
    let y: i128 = position.0.y as i128 + step(velocity.0.y, BALL_STEP) + delta_millis as i128;
    position.0 = Vec2::new(saturate_i128(x), saturate_i128(y));
}

/// The direction of `v`, where zero counts as positive.
pub open spec fn sign_of(v: int) -> int {
    if v < 0 {
        -1
    } else {
        1
    }
}

/// Points the computer's paddle at the ball: its vertical velocity becomes the sign of the
/// ball's vertical offset from the paddle, always at full speed.
pub fn move_ai(velocity: &mut Velocity, position: &Position, ball: &Position)
    ensures
        final(velocity).0.x == old(velocity).0.x,
        final(velocity).0.y == sign_of(ball.0.y - position.0.y),
{
    if ball.0.y < position.0.y {
        velocity.0.y = -1;
    } else {
        velocity.0.y = 1;
    }
}

/// Vertical velocity chosen by the keys held: up wins over down, and neither stops the paddle.
pub open spec fn input_direction(up: bool, down: bool) -> int {
    if up {
        1
    } else if down {
        -1
    } else {
        0
    }
}

/// Sets the player's paddle velocity from the direction keys held this tick.
pub fn handle_player_input(velocity: &mut Velocity, up: bool, down: bool)
    ensures
        final(velocity).0.x == old(velocity).0.x,
        final(velocity).0.y == input_direction(up, down),
{
    if up {
        velocity.0.y = 1;
    } else if down {
        velocity.0.y = -1;
    } else {
        velocity.0.y = 0;
    }
}

/// A paddle's center lies strictly inside the band between the gutters, with room for half a
/// paddle: `|y| < height / 2 - GUTTER_HEIGHT - PADDLE_HEIGHT / 2`, written without division.
pub open spec fn paddle_in_bounds(y: int, window_height: int) -> bool {
    2 * abs(y) < window_height - 2 * GUTTER_HEIGHT - PADDLE_HEIGHT
}

/// Where a paddle at `p` moving with `v` is after one tick: moved by its velocity times the
/// paddle speed where that stays in bounds, else where it was.
pub open spec fn paddle_step(p: Position, v: Velocity, window_height: int) -> Position {
    let ny = p.0.y + v.0.y * PADDLE_STEP;
    let nx = saturate(p.0.x + v.0.x * PADDLE_STEP);
    if paddle_in_bounds(ny, window_height) {
        Position(Vec2 { x: nx as i64, y: ny as i64 })
    } else {
        p
    }
}

/// Moves a paddle by its velocity times the paddle speed, but only where the new position stays
/// in bounds; otherwise the paddle does not move this tick.
pub fn move_paddle(position: &mut Position, velocity: &Velocity, window_height: i64)
    ensures
        *final(position) == paddle_step(*old(position), *velocity, window_height as int),
        final(position).0.y == old(position).0.y || paddle_in_bounds(final(position).0.y as int, window_height as int),
{
    let x: i128 = position.0.x as i128 + step(velocity.0.x, PADDLE_STEP);
    let y: i128 = position.0.y as i128 + step(velocity.0.y, PADDLE_STEP);
    let ay: i128 = if y < 0 { -y } else { y };
    if 2 * ay < window_height as i128 - 2 * GUTTER_HEIGHT as i128 - PADDLE_HEIGHT as i128 {
        position.0 = Vec2::new(saturate_i128(x), y as i64);
    }
}

} // verus!
