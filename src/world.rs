use vstd::prelude::*;

use crate::collisions::{handle_collisions, resolve_all};
use crate::components::{
    Ball, Gutter, Paddle, Position, Shape, Velocity, BALL_SIZE, GUTTER_HEIGHT, PADDLE_HEIGHT,
    PADDLE_PADDING, PADDLE_WIDTH,
};
use crate::geometry::Vec2;
use crate::movement::{
    ball_step, handle_player_input, input_direction, move_ai, move_ball, move_paddle, paddle_step,
    sign_of,
};
use crate::scoring::{
    detect_scoring, origin, reset_ball, score_after, scored_at, serve_velocity, update_score,
    update_scoreboard, Score, Scoreboard, Scored,
};

verus! {

/// Size of the window the game is played in, in thousandths of a world unit. The field is
/// centered on the origin.
#[derive(Clone, Copy, Debug, PartialEq, Eq, Structural)]
pub struct WindowSize {
    pub width: i64,
    pub height: i64,
}

impl WindowSize {
    pub open spec fn wf(&self) -> bool {
        self.width >= 0 && self.height >= 0
    }
}

/// Every entity of a game: one ball, two paddles, two gutters, and the score.
#[derive(Clone, Copy, Debug, PartialEq, Eq, Structural)]
pub struct World {
    pub window: WindowSize,
    pub ball: Ball,
    pub player: Paddle,
    pub ai: Paddle,
    pub top_gutter: Gutter,
    pub bottom_gutter: Gutter,
    pub score: Score,
    pub scoreboard: Scoreboard,
}

/// What a frame produced: the point won, if any, and whether the scoreboard must be redrawn.
#[derive(Clone, Copy, Debug, PartialEq, Eq, Structural)]
pub struct FrameOutcome {
    pub scored: Option<Scored>,
    pub scoreboard_changed: bool,
}

/// The ball as it is served at the start of a game.
pub fn spawn_ball() -> (r: Ball)
    ensures
        r.wf(),
        r.shape.0 == (Vec2 { x: BALL_SIZE, y: BALL_SIZE }),
        r.position == origin(),
        r.velocity.0 == (Vec2 { x: 1, y: 1 }),
{
    Ball::new(1, 1)
}

/// The player's paddle near the right edge and the computer's near the left, both centered
/// vertically. Half the width is rounded down to a whole thousandth.
pub fn spawn_paddles(window: &WindowSize) -> (r: (Paddle, Paddle))
    requires
        window.wf(),
    ensures
        r.0.wf(),
        r.1.wf(),
        r.0.shape.0 == (Vec2 { x: PADDLE_WIDTH, y: PADDLE_HEIGHT }),
        r.1.shape.0 == (Vec2 { x: PADDLE_WIDTH, y: PADDLE_HEIGHT }),
        r.0.position.0 == (Vec2 { x: (window.width / 2 - PADDLE_PADDING) as i64, y: 0 }),
        r.1.position.0 == (Vec2 { x: (-(window.width / 2) + PADDLE_PADDING) as i64, y: 0 }),
        r.0.velocity.0 == (Vec2 { x: 0, y: 0 }),
        r.1.velocity.0 == (Vec2 { x: 0, y: 0 }),
{
    let half = window.width / 2;
    let right = Paddle::new(half - PADDLE_PADDING, 0);
    let left = Paddle::new(-half + PADDLE_PADDING, 0);
    (right, left)
}

/// The two gutters, each as wide as the window, lying along its top and bottom edges.
pub fn spawn_gutters(window: &WindowSize) -> (r: (Gutter, Gutter))
    requires
        window.wf(),
    ensures
        r.0.wf(),
        r.1.wf(),
        r.0.shape.0 == (Vec2 { x: window.width, y: GUTTER_HEIGHT }),
        r.1.shape.0 == (Vec2 { x: window.width, y: GUTTER_HEIGHT }),
        r.0.position.0 == (Vec2 { x: 0, y: (window.height / 2 - GUTTER_HEIGHT / 2) as i64 }),
        r.1.position.0 == (Vec2 { x: 0, y: (-(window.height / 2) + GUTTER_HEIGHT / 2) as i64 }),
{
    let half = window.height / 2;
    let top = Gutter::new(0, half - GUTTER_HEIGHT / 2, window.width);
    let bottom = Gutter::new(0, -half + GUTTER_HEIGHT / 2, window.width);
    (top, bottom)
}

/// The bodies the ball can hit, in the order they are checked.
pub open spec fn bodies(w: World) -> Seq<(Position, Shape)> {
    seq![
        (w.player.position, w.player.shape),
        (w.ai.position, w.ai.shape),
        (w.top_gutter.position, w.top_gutter.shape),
        (w.bottom_gutter.position, w.bottom_gutter.shape),
    ]
}

/// The world after one simulation tick: the ball moves, the computer aims at it, the ball
/// bounces off what it touches, the player's keys set the player's velocity, and both paddles
/// move.
pub open spec fn tick_spec(w: World, up: bool, down: bool, delta_millis: int) -> World {
    let ball_position = ball_step(w.ball.position, w.ball.velocity, delta_millis);
    let ai_velocity = Velocity(
        Vec2 { x: w.ai.velocity.0.x, y: sign_of(ball_position.0.y - w.ai.position.0.y) as i64 },
    );
    let ball_velocity = resolve_all(w.ball.velocity, ball_position, bodies(w));
    let player_velocity = Velocity(
        Vec2 { x: w.player.velocity.0.x, y: input_direction(up, down) as i64 },
    );
    World {
        ball: Ball { position: ball_position, velocity: ball_velocity, ..w.ball },
        player: Paddle {
            position: paddle_step(w.player.position, player_velocity, w.window.height as int),
            velocity: player_velocity,
            ..w.player
        },
        ai: Paddle {
            position: paddle_step(w.ai.position, ai_velocity, w.window.height as int),
            velocity: ai_velocity,
            ..w.ai
        },
        ..w
    }
}

/// The points won in a frame, as a queue.
pub open spec fn events_of(e: Option<Scored>) -> Seq<Scored> {
    match e {
        Some(s) => seq![s],
        None => seq![],
    }
}

/// The point won in the frame that starts from `w`, if any.
pub open spec fn frame_event(w: World) -> Option<Scored> {
    scored_at(w.ball.position.0.x as int, w.window.width as int)
}

/// The world after one frame: a point won puts the ball back in play and counts on the score,
/// and the scoreboard shows the score.
pub open spec fn frame_spec(w: World) -> World {
    let score = score_after(w.score, events_of(frame_event(w)));
    World {
        ball: match frame_event(w) {
            Some(s) => Ball { position: origin(), velocity: serve_velocity(s.0), ..w.ball },
            None => w.ball,
        },
        score,
        scoreboard: Scoreboard { player: score.player, ai: score.ai },
        ..w
    }
}

impl World {
    pub open spec fn wf(&self) -> bool {
        &&& self.window.wf()
        &&& self.ball.wf()
        &&& self.player.wf()
        &&& self.ai.wf()
        &&& self.top_gutter.wf()
        &&& self.bottom_gutter.wf()
    }

    /// A game at its start in a window of the given size, with no points won.
    pub fn new(window: WindowSize) -> (r: World)
        requires
            window.wf(),
        ensures
            r.wf(),
            r.window == window,
            r.ball.shape.0 == (Vec2 { x: BALL_SIZE, y: BALL_SIZE }),
            r.ball.position == origin(),
            r.ball.velocity.0 == (Vec2 { x: 1, y: 1 }),
            r.player.shape.0 == (Vec2 { x: PADDLE_WIDTH, y: PADDLE_HEIGHT }),
            r.ai.shape.0 == (Vec2 { x: PADDLE_WIDTH, y: PADDLE_HEIGHT }),
            r.player.velocity.0 == (Vec2 { x: 0, y: 0 }),
            r.ai.velocity.0 == (Vec2 { x: 0, y: 0 }),
            r.top_gutter.shape.0 == (Vec2 { x: window.width, y: GUTTER_HEIGHT }),
            r.bottom_gutter.shape.0 == (Vec2 { x: window.width, y: GUTTER_HEIGHT }),
            r.player.position.0 == (Vec2 { x: (window.width / 2 - PADDLE_PADDING) as i64, y: 0 }),
            r.ai.position.0 == (Vec2 { x: (-(window.width / 2) + PADDLE_PADDING) as i64, y: 0 }),
            r.top_gutter.position.0 == (Vec2 { x: 0, y: (window.height / 2 - GUTTER_HEIGHT / 2) as i64 }),
            r.bottom_gutter.position.0 == (Vec2 { x: 0, y: (-(window.height / 2) + GUTTER_HEIGHT / 2) as i64 }),
            r.score == (Score { player: 0, ai: 0 }),
            r.scoreboard == (Scoreboard { player: 0, ai: 0 }),
    {
        let ball = spawn_ball();
        let (player, ai) = spawn_paddles(&window);
        let (top_gutter, bottom_gutter) = spawn_gutters(&window);
        World {
            window,
            ball,
            player,
            ai,
            top_gutter,
            bottom_gutter,
            score: Score { player: 0, ai: 0 },
            scoreboard: Scoreboard { player: 0, ai: 0 },
        }
    }

    /// One simulation tick, with the direction keys held and the time elapsed since the last
    /// tick in milliseconds.
    pub fn fixed_tick(&mut self, up: bool, down: bool, delta_millis: u32)
        requires
            old(self).wf(),
        ensures
            final(self).wf(),
            *final(self) == tick_spec(*old(self), up, down, delta_millis as int),
    {
        move_ball(&mut self.ball.position, &self.ball.velocity, delta_millis);
        move_ai(&mut self.ai.velocity, &self.ai.position, &self.ball.position);
        let others = vec![
            (self.player.position, self.player.shape),
            (self.ai.position, self.ai.shape),
            (self.top_gutter.position, self.top_gutter.shape),
            (self.bottom_gutter.position, self.bottom_gutter.shape),
        ];
        handle_collisions(&mut self.ball.velocity, &self.ball.position, others.as_slice());
        handle_player_input(&mut self.player.velocity, up, down);
        self.move_paddles();
    }

    /// Moves both paddles, each only where it stays in bounds.
    pub fn move_paddles(&mut self)
        ensures
            *final(self) == (World {
                player: Paddle {
                    position: paddle_step(old(self).player.position, old(self).player.velocity, old(self).window.height as int),
                    ..old(self).player
                },
                ai: Paddle {
                    position: paddle_step(old(self).ai.position, old(self).ai.velocity, old(self).window.height as int),
                    ..old(self).ai
                },
                ..*old(self)
            }),
    {
        let height = self.window.height;
        move_paddle(&mut self.player.position, &self.player.velocity, height);
        move_paddle(&mut self.ai.position, &self.ai.velocity, height);
    }

    /// One frame of scoring: detects a point won, puts the ball back in play, counts the point
    /// and brings the scoreboard up to date.
    pub fn frame(&mut self) -> (r: FrameOutcome)
        requires
            old(self).wf(),
        ensures
            final(self).wf(),
            *final(self) == frame_spec(*old(self)),
            r.scored == frame_event(*old(self)),
            r.scoreboard_changed == (old(self).scoreboard.player != final(self).score.player
                || old(self).scoreboard.ai != final(self).score.ai),
    {
        let scored = detect_scoring(&self.ball.position, self.window.width);
        let mut events: Vec<Scored> = Vec::new();
        if let Some(s) = scored {
            events.push(s);
        }
        assert(events@ == events_of(scored));
        reset_ball(&mut self.ball.position, &mut self.ball.velocity, events.as_slice());
        update_score(&mut self.score, events.as_slice());
        let changed = update_scoreboard(&mut self.scoreboard, &self.score);
        FrameOutcome { scored, scoreboard_changed: changed }
    }
}

} // verus!
