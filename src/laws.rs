use vstd::prelude::*;

use crate::collisions::{resolve, resolve_all};
use crate::components::{Position, Shape, Velocity};
use crate::geometry::Collision;
use crate::movement::paddle_in_bounds;
use crate::scoring::{origin, serve_velocity, Scored, Scorer};
use crate::world::{bodies, events_of, frame_event, frame_spec, tick_spec, World};

verus! {

/// One step of a game: a simulation tick with the keys held and the time elapsed, or a frame.
pub enum Step {
    Tick { up: bool, down: bool, delta_millis: u32 },
    Frame,
}

pub open spec fn step_spec(w: World, s: Step) -> World {
    match s {
        Step::Tick { up, down, delta_millis } => tick_spec(w, up, down, delta_millis as int),
        Step::Frame => frame_spec(w),
    }
}

/// The world after taking `steps` in order from `w`.
pub open spec fn run_spec(w: World, steps: Seq<Step>) -> World
    decreases steps.len(),
{
    if steps.len() == 0 {
        w
    } else {
        step_spec(run_spec(w, steps.drop_last()), steps.last())
    }
}

proof fn lemma_resolve_all_wf(v: Velocity, ball: Position, others: Seq<(Position, Shape)>)
    requires
        v.wf(),
    ensures
        resolve_all(v, ball, others).wf(),
    decreases others.len(),
{
    if others.len() > 0 {
        lemma_resolve_all_wf(v, ball, others.drop_last());
    }
}

/// A tick and a frame each keep the world well formed.
pub proof fn lemma_step_keeps_wf(w: World, s: Step)
    requires
        w.wf(),
    ensures
        step_spec(w, s).wf(),
{
    match s {
        Step::Tick { up, down, delta_millis } => {
            let m = tick_spec(w, up, down, delta_millis as int);
            lemma_resolve_all_wf(w.ball.velocity, m.ball.position, bodies(w));
        },
        Step::Frame => {},
    }
}

/// Any run of ticks and frames keeps the world well formed.
pub proof fn lemma_run_keeps_wf(w: World, steps: Seq<Step>)
    requires
        w.wf(),
    ensures
        run_spec(w, steps).wf(),
    decreases steps.len(),
{
    if steps.len() > 0 {
        lemma_run_keeps_wf(w, steps.drop_last());
        lemma_step_keeps_wf(run_spec(w, steps.drop_last()), steps.last());
    }
}

/// The one ball is never created or destroyed: a tick and a frame each keep its shape, and a
/// frame changes nothing of the world but the ball's position and velocity, the score and the
/// scoreboard.
pub proof fn lemma_ball_persists(w: World, up: bool, down: bool, delta_millis: u32)
    requires
        w.wf(),
    ensures
        tick_spec(w, up, down, delta_millis as int).ball.shape == w.ball.shape,
        frame_spec(w).ball.shape == w.ball.shape,
        frame_spec(w).player == w.player,
        frame_spec(w).ai == w.ai,
        frame_spec(w).top_gutter == w.top_gutter,
        frame_spec(w).bottom_gutter == w.bottom_gutter,
        frame_spec(w).window == w.window,
{
}

/// A ball past the right edge gives exactly one point to the computer in that frame, and since
/// the ball is back at the origin when the frame ends, the next frame gives none.
pub proof fn lemma_single_point_per_exit(w: World)
    requires
        w.wf(),
        2 * w.ball.position.0.x > w.window.width,
    ensures
        frame_event(w) == Some(Scored(Scorer::Ai)),
        events_of(frame_event(w)).len() == 1,
        frame_event(frame_spec(w)) == None::<Scored>,
{
}

/// After a point is won the ball is at the origin, served with the fixed diagonal velocity
/// toward the side that scored.
pub proof fn lemma_reset_after_point(w: World, s: Scored)
    requires
        w.wf(),
        frame_event(w) == Some(s),
    ensures
        frame_spec(w).ball.position == origin(),
        frame_spec(w).ball.velocity == serve_velocity(s.0),
{
}

/// Applying a collision rule twice gives the same velocity as applying it once.
pub proof fn lemma_collision_rule_idempotent(v: Velocity, side: Collision)
    requires
        v.wf(),
    ensures
        resolve(resolve(v, side), side) == resolve(v, side),
{
}

/// A tick moves a paddle only to a position inside the vertical bound; so paddles that start
/// in bounds stay in bounds.
pub proof fn lemma_paddles_stay_in_bounds(w: World, up: bool, down: bool, delta_millis: u32)
    requires
        w.wf(),
    ensures
        ({
            let n = tick_spec(w, up, down, delta_millis as int);
            let h = w.window.height as int;
            &&& n.player.position == w.player.position || paddle_in_bounds(n.player.position.0.y as int, h)
            &&& n.ai.position == w.ai.position || paddle_in_bounds(n.ai.position.0.y as int, h)
            &&& paddle_in_bounds(w.player.position.0.y as int, h) ==> paddle_in_bounds(n.player.position.0.y as int, h)
            &&& paddle_in_bounds(w.ai.position.0.y as int, h) ==> paddle_in_bounds(n.ai.position.0.y as int, h)
        }),
{
}

/// Neither counter ever goes down: a tick leaves the score alone and a frame only adds to it.
pub proof fn lemma_score_never_decreases(w: World, up: bool, down: bool, delta_millis: u32)
    requires
        w.wf(),
    ensures
        tick_spec(w, up, down, delta_millis as int).score == w.score,
        frame_spec(w).score.player >= w.score.player,
        frame_spec(w).score.ai >= w.score.ai,
{
}

/// Over any run of ticks and frames neither counter goes down.
pub proof fn lemma_score_never_decreases_over_run(w: World, steps: Seq<Step>)
    requires
        w.wf(),
    ensures
        run_spec(w, steps).score.player >= w.score.player,
        run_spec(w, steps).score.ai >= w.score.ai,
    decreases steps.len(),
{
    if steps.len() > 0 {
        let before = run_spec(w, steps.drop_last());
        lemma_score_never_decreases_over_run(w, steps.drop_last());
        lemma_run_keeps_wf(w, steps.drop_last());
        match steps.last() {
            Step::Tick { up, down, delta_millis } => lemma_score_never_decreases(before, up, down, delta_millis),
            Step::Frame => lemma_score_never_decreases(before, true, true, 0),
        }
    }
}

/// The ball of a game keeps its shape over any run of ticks and frames: it is the same ball.
pub proof fn lemma_ball_persists_over_run(w: World, steps: Seq<Step>)
    requires
        w.wf(),
    ensures
        run_spec(w, steps).ball.shape == w.ball.shape,
    decreases steps.len(),
{
    if steps.len() > 0 {
        let before = run_spec(w, steps.drop_last());
        lemma_ball_persists_over_run(w, steps.drop_last());
        lemma_run_keeps_wf(w, steps.drop_last());
        match steps.last() {
            Step::Tick { up, down, delta_millis } => lemma_ball_persists(before, up, down, delta_millis),
            Step::Frame => lemma_ball_persists(before, true, true, 0),
        }
    }
}

/// Paddles that start in bounds are in bounds after any run of ticks and frames.
pub proof fn lemma_paddles_stay_in_bounds_over_run(w: World, steps: Seq<Step>)
    requires
        w.wf(),
        paddle_in_bounds(w.player.position.0.y as int, w.window.height as int),
        paddle_in_bounds(w.ai.position.0.y as int, w.window.height as int),
    ensures
        run_spec(w, steps).window == w.window,
        paddle_in_bounds(run_spec(w, steps).player.position.0.y as int, w.window.height as int),
        paddle_in_bounds(run_spec(w, steps).ai.position.0.y as int, w.window.height as int),
    decreases steps.len(),
{
    if steps.len() > 0 {
        let before = run_spec(w, steps.drop_last());
        lemma_paddles_stay_in_bounds_over_run(w, steps.drop_last());
        lemma_run_keeps_wf(w, steps.drop_last());
        match steps.last() {
            Step::Tick { up, down, delta_millis } => lemma_paddles_stay_in_bounds(before, up, down, delta_millis),
            Step::Frame => lemma_ball_persists(before, true, true, 0),
        }
    }
}

} // verus!
