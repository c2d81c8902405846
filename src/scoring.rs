use vstd::prelude::*;

use crate::components::{Position, Velocity};
use crate::geometry::Vec2;

verus! {

/// The side that won a point.
#[derive(Clone, Copy, Debug, PartialEq, Eq, Structural)]
pub enum Scorer {
    Ai,
    Player,
}

/// A point was won: produced when the ball leaves the field, drained in the same frame.
#[derive(Clone, Copy, Debug, PartialEq, Eq, Structural)]
pub struct Scored(pub Scorer);

/// Points won by each side.
#[derive(Clone, Copy, Debug, PartialEq, Eq, Structural, Default)]
pub struct Score {
    pub player: u32,
    pub ai: u32,
}

/// Which side, if any, won a point with the ball at horizontal position `x`: past the right
/// edge the computer scores, past the left edge the player does. `2 * x > width` is
/// `x > width / 2` without division.
pub open spec fn scored_at(x: int, window_width: int) -> Option<Scored> {
    if 2 * x > window_width {
        Some(Scored(Scorer::Ai))
    } else if 2 * x < -window_width {
        Some(Scored(Scorer::Player))
    } else {
        None
    }
}

/// The point won this frame, if the ball has left the field horizontally: at most one.
pub fn detect_scoring(ball: &Position, window_width: i64) -> (r: Option<Scored>)
    ensures
        r == scored_at(ball.0.x as int, window_width as int),
{
    let x2: i128 = 2 * ball.0.x as i128;
    if x2 > window_width as i128 {
        Some(Scored(Scorer::Ai))
    } else if x2 < -(window_width as i128) {
        Some(Scored(Scorer::Player))
    } else {
        None
    }
}

/// The velocity the ball is served with after `scorer` won a point: diagonally up, toward the
/// side that scored; `(-1, 1)` after a point for the computer on the left, `(1, 1)` after one
/// for the player on the right.
pub open spec fn serve_velocity(scorer: Scorer) -> Velocity {
    match scorer {
        Scorer::Ai => Velocity(Vec2 { x: -1i64, y: 1i64 }),
        Scorer::Player => Velocity(Vec2 { x: 1i64, y: 1i64 }),
    }
}

pub open spec fn origin() -> Position {
    Position(Vec2 { x: 0i64, y: 0i64 })
}

/// Puts the ball back at the origin for each point won this frame, served toward the side that
/// scored; with no point won it is left as it is.
pub fn reset_ball(position: &mut Position, velocity: &mut Velocity, events: &[Scored])
    ensures
        events@.len() == 0 ==> *final(position) == *old(position) && *final(velocity) == *old(velocity),
        events@.len() > 0 ==> *final(position) == origin() && *final(velocity) == serve_velocity(events@.last().0),
{
    let mut i: usize = 0;
    while i < events.len()
        invariant
            0 <= i <= events.len(),
            i == 0 ==> *position == *old(position) && *velocity == *old(velocity),
            i > 0 ==> *position == origin() && *velocity == serve_velocity(events@[i - 1].0),
        decreases events.len() - i,
    {
        match events[i].0 {
            Scorer::Ai => {
                position.0 = Vec2::new(0, 0);
                velocity.0 = Vec2::new(-1, 1);
            },
            Scorer::Player => {
                position.0 = Vec2::new(0, 0);
                velocity.0 = Vec2::new(1, 1);
            },
        }
        i = i + 1;
    }
}

/// How many of `events` were won by `side`.
pub open spec fn points_for(events: Seq<Scored>, side: Scorer) -> nat
    decreases events.len(),
{
    if events.len() == 0 {
        0
    } else {
        points_for(events.drop_last(), side) + if events.last().0 == side {
            1nat
        } else {
            0nat
        }
    }
}

/// `count + n`, held at `u32::MAX`: a counter that has reached the top stays there.
pub open spec fn add_points(count: u32, n: nat) -> u32 {
    if count + n > u32::MAX {
        u32::MAX
    } else {
        (count + n) as u32
    }
}

/// The score after the points won in `events`.
pub open spec fn score_after(score: Score, events: Seq<Scored>) -> Score {
    Score {
        player: add_points(score.player, points_for(events, Scorer::Player)),
        ai: add_points(score.ai, points_for(events, Scorer::Ai)),
    }
}

/// Adds one point to the winning side's counter for each point won this frame.
pub fn update_score(score: &mut Score, events: &[Scored])
    ensures
        *final(score) == score_after(*old(score), events@),
{
    let mut i: usize = 0;
    while i < events.len()
        invariant
            0 <= i <= events.len(),
            *score == score_after(*old(score), events@.take(i as int)),
        decreases events.len() - i,
    {
        assert(events@.take(i as int + 1).drop_last() == events@.take(i as int));
        match events[i].0 {
            Scorer::Ai => score.ai = score.ai.saturating_add(1),
            Scorer::Player => score.player = score.player.saturating_add(1),
        }
        i = i + 1;
    }
    assert(events@.take(events@.len() as int) == events@);
}

/// Numbers shown on the scoreboard.
#[derive(Clone, Copy, Debug, PartialEq, Eq, Structural, Default)]
pub struct Scoreboard {
    pub player: u32,
    pub ai: u32,
}

/// Brings the scoreboard up to date with `score`, returning whether anything changed, so that
/// the display is redrawn only when a counter did.
pub fn update_scoreboard(board: &mut Scoreboard, score: &Score) -> (changed: bool)
    ensures
        final(board).player == score.player,
        final(board).ai == score.ai,
        changed == (old(board).player != score.player || old(board).ai != score.ai),
{
    let changed = board.player != score.player || board.ai != score.ai;
    if changed {
        board.player = score.player;
        board.ai = score.ai;
    }
    changed
}

} // verus!
