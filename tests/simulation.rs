use pong::collisions::{apply_collision, handle_collisions};
use pong::components::{Ball, Gutter, Paddle, Position, Shape, Velocity, BALL_SIZE, GUTTER_HEIGHT, PADDLE_HEIGHT, PADDLE_WIDTH};
use pong::geometry::{collide_with_side, intersects, saturate_i128, Aabb2d, BoundingCircle, Collision, Vec2};
use pong::movement::{handle_player_input, move_ai, move_ball, move_paddle};
use pong::scoring::{detect_scoring, reset_ball, update_score, update_scoreboard, Score, Scoreboard, Scored, Scorer};
use pong::world::{spawn_ball, spawn_gutters, spawn_paddles, WindowSize, World};

fn pos(x: i64, y: i64) -> Position {
    Position(Vec2::new(x, y))
}

fn vel(x: i64, y: i64) -> Velocity {
    Velocity(Vec2::new(x, y))
}

fn world_800_by_600() -> World {
    World::new(WindowSize { width: 800_000, height: 600_000 })
}

#[test]
fn ball_moves_by_speed_plus_elapsed_time() {
    let mut p = pos(0, 0);
    move_ball(&mut p, &vel(1, 1), 16);
    assert_eq!(p, pos(5016, 5016));
}

#[test]
fn ball_moves_left_and_down() {
    let mut p = pos(1000, 2000);
    move_ball(&mut p, &vel(-1, -1), 10);
    assert_eq!(p, pos(1000 - 5000 + 10, 2000 - 5000 + 10));
}

#[test]
fn ball_position_saturates_at_the_edge_of_the_range() {
    let mut p = pos(i64::MAX - 10, i64::MIN + 10);
    move_ball(&mut p, &vel(1, -1), 0);
    assert_eq!(p, pos(i64::MAX, i64::MIN));
}

#[test]
fn saturate_clamps_into_i64() {
    assert_eq!(saturate_i128(i64::MAX as i128 + 5), i64::MAX);
    assert_eq!(saturate_i128(i64::MIN as i128 - 5), i64::MIN);
    assert_eq!(saturate_i128(-42), -42);
}

#[test]
fn ai_moves_toward_ball_above() {
    let mut v = vel(0, 0);
    move_ai(&mut v, &pos(-350_000, 10_000), &pos(0, 50_000));
    assert_eq!(v, vel(0, 1));
}

#[test]
fn ai_moves_toward_ball_below() {
    let mut v = vel(0, 1);
    move_ai(&mut v, &pos(-350_000, 10_000), &pos(0, -50_000));
    assert_eq!(v, vel(0, -1));
}

#[test]
fn ai_aligned_with_ball_moves_up() {
    let mut v = vel(0, -1);
    move_ai(&mut v, &pos(-350_000, 7_000), &pos(0, 7_000));
    assert_eq!(v, vel(0, 1));
}

#[test]
fn player_input_sets_vertical_velocity() {
    let mut v = vel(0, 0);
    handle_player_input(&mut v, true, false);
    assert_eq!(v, vel(0, 1));
    handle_player_input(&mut v, false, true);
    assert_eq!(v, vel(0, -1));
    handle_player_input(&mut v, true, true);
    assert_eq!(v, vel(0, 1));
    handle_player_input(&mut v, false, false);
    assert_eq!(v, vel(0, 0));
}

#[test]
fn paddle_moves_inside_bounds() {
    let mut p = pos(350_000, 0);
    move_paddle(&mut p, &vel(0, 1), 600_000);
    assert_eq!(p, pos(350_000, 6000));
}

#[test]
fn paddle_move_past_bound_is_dropped() {
    // the bound for a 600-unit window is 300 - 20 - 25 = 255 units
    let mut p = pos(350_000, 250_000);
    move_paddle(&mut p, &vel(0, 1), 600_000);
    assert_eq!(p, pos(350_000, 250_000));
    let mut q = pos(350_000, -250_000);
    move_paddle(&mut q, &vel(0, -1), 600_000);
    assert_eq!(q, pos(350_000, -250_000));
}

#[test]
fn paddle_move_onto_bound_is_dropped() {
    let mut p = pos(350_000, 249_000);
    move_paddle(&mut p, &vel(0, 1), 600_000);
    assert_eq!(p, pos(350_000, 249_000));
    let mut q = pos(350_000, 248_999);
    move_paddle(&mut q, &vel(0, 1), 600_000);
    assert_eq!(q, pos(350_000, 254_999));
}

#[test]
fn circle_touching_box_intersects() {
    let ball = BoundingCircle::new(Vec2::new(0, 0), 4000);
    assert!(intersects(&ball, &Aabb2d::new(Vec2::new(6000, 0), Vec2::new(2000, 2000))));
    assert!(!intersects(&ball, &Aabb2d::new(Vec2::new(6001, 0), Vec2::new(2000, 2000))));
    // corner: offset (3000, 3000) has length about 4243, beyond the radius
    assert!(!intersects(&ball, &Aabb2d::new(Vec2::new(5000, 5000), Vec2::new(2000, 2000))));
    // corner: offset (2000, 2000) has length about 2828
    assert!(intersects(&ball, &Aabb2d::new(Vec2::new(4000, 4000), Vec2::new(2000, 2000))));
}

#[test]
fn closest_point_clamps_each_axis() {
    let b = Aabb2d::new(Vec2::new(10, 20), Vec2::new(5, 5));
    assert_eq!(b.closest_point(Vec2::new(0, 22)), Vec2::new(5, 22));
    assert_eq!(b.closest_point(Vec2::new(100, -100)), Vec2::new(15, 15));
    assert_eq!(b.closest_point(Vec2::new(12, 18)), Vec2::new(12, 18));
}

#[test]
fn collision_sides() {
    let half = Vec2::new(2000, 2000);
    let ball = BoundingCircle::new(Vec2::new(0, 0), 4000);
    assert_eq!(collide_with_side(ball, Aabb2d::new(Vec2::new(5000, 0), half)), Some(Collision::Left));
    assert_eq!(collide_with_side(ball, Aabb2d::new(Vec2::new(-5000, 0), half)), Some(Collision::Right));
    assert_eq!(collide_with_side(ball, Aabb2d::new(Vec2::new(0, -5000), half)), Some(Collision::Top));
    assert_eq!(collide_with_side(ball, Aabb2d::new(Vec2::new(0, 5000), half)), Some(Collision::Bottom));
    assert_eq!(collide_with_side(ball, Aabb2d::new(Vec2::new(0, 9000), half)), None);
}

#[test]
fn collision_tie_goes_to_vertical_axis() {
    let half = Vec2::new(2000, 2000);
    let ball = BoundingCircle::new(Vec2::new(0, 0), 4000);
    assert_eq!(collide_with_side(ball, Aabb2d::new(Vec2::new(4000, 4000), half)), Some(Collision::Bottom));
    assert_eq!(collide_with_side(ball, Aabb2d::new(Vec2::new(-4000, -4000), half)), Some(Collision::Top));
}

#[test]
fn ball_center_inside_box_counts_as_bottom() {
    let ball = BoundingCircle::new(Vec2::new(0, 0), 4000);
    let c = collide_with_side(ball, Aabb2d::new(Vec2::new(0, 0), Vec2::new(2000, 2000)));
    assert_eq!(c, Some(Collision::Bottom));
}

#[test]
fn collision_rules_force_direction() {
    let mut v = vel(3, -2);
    apply_collision(&mut v, Collision::Left);
    assert_eq!(v, vel(-3, -2));
    apply_collision(&mut v, Collision::Right);
    assert_eq!(v, vel(3, -2));
    apply_collision(&mut v, Collision::Top);
    assert_eq!(v, vel(3, 2));
    apply_collision(&mut v, Collision::Bottom);
    assert_eq!(v, vel(3, -2));
}

#[test]
fn left_rule_twice_equals_once() {
    let mut once = vel(1, 1);
    apply_collision(&mut once, Collision::Left);
    let mut twice = vel(1, 1);
    apply_collision(&mut twice, Collision::Left);
    apply_collision(&mut twice, Collision::Left);
    assert_eq!(once, twice);
    assert_eq!(twice, vel(-1, 1));
}

#[test]
fn ball_bounces_off_paddle_and_gutter() {
    let paddle = Paddle::new(350_000, 0);
    let gutter = Gutter::new(0, 290_000, 800_000);
    let others = vec![
        (paddle.position, paddle.shape),
        (gutter.position, gutter.shape),
    ];
    // hits the paddle's left side
    let mut v = vel(1, 1);
    handle_collisions(&mut v, &pos(337_000, 0), &others);
    assert_eq!(v, vel(-1, 1));
    // hits the gutter from below
    let mut w = vel(1, 1);
    handle_collisions(&mut w, &pos(0, 268_000), &others);
    assert_eq!(w, vel(1, -1));
    // hits nothing
    let mut u = vel(1, 1);
    handle_collisions(&mut u, &pos(0, 0), &others);
    assert_eq!(u, vel(1, 1));
}

#[test]
fn detect_scoring_at_each_edge() {
    assert_eq!(detect_scoring(&pos(400_001, 0), 800_000), Some(Scored(Scorer::Ai)));
    assert_eq!(detect_scoring(&pos(400_000, 0), 800_000), None);
    assert_eq!(detect_scoring(&pos(-400_001, 0), 800_000), Some(Scored(Scorer::Player)));
    assert_eq!(detect_scoring(&pos(-400_000, 0), 800_000), None);
    assert_eq!(detect_scoring(&pos(0, 0), 800_000), None);
}

#[test]
fn reset_serves_toward_scoring_side() {
    let mut p = pos(500_000, 3);
    let mut v = vel(1, -1);
    reset_ball(&mut p, &mut v, &[Scored(Scorer::Ai)]);
    assert_eq!((p, v), (pos(0, 0), vel(-1, 1)));
    let mut p = pos(-500_000, 3);
    let mut v = vel(-1, -1);
    reset_ball(&mut p, &mut v, &[Scored(Scorer::Player)]);
    assert_eq!((p, v), (pos(0, 0), vel(1, 1)));
}

#[test]
fn reset_without_points_changes_nothing() {
    let mut p = pos(7, 8);
    let mut v = vel(-1, -1);
    reset_ball(&mut p, &mut v, &[]);
    assert_eq!((p, v), (pos(7, 8), vel(-1, -1)));
}

#[test]
fn update_score_counts_each_side() {
    let mut s = Score { player: 2, ai: 0 };
    update_score(&mut s, &[Scored(Scorer::Ai), Scored(Scorer::Player), Scored(Scorer::Ai)]);
    assert_eq!(s, Score { player: 3, ai: 2 });
}

#[test]
fn score_stays_at_its_maximum() {
    let mut s = Score { player: u32::MAX, ai: 0 };
    update_score(&mut s, &[Scored(Scorer::Player)]);
    assert_eq!(s, Score { player: u32::MAX, ai: 0 });
}

#[test]
fn scoreboard_redraws_only_on_change() {
    let mut board = Scoreboard::default();
    assert!(!update_scoreboard(&mut board, &Score { player: 0, ai: 0 }));
    assert!(update_scoreboard(&mut board, &Score { player: 0, ai: 1 }));
    assert_eq!(board, Scoreboard { player: 0, ai: 1 });
    assert!(!update_scoreboard(&mut board, &Score { player: 0, ai: 1 }));
}

#[test]
fn spawn_places_entities() {
    let window = WindowSize { width: 800_000, height: 600_000 };
    let ball = spawn_ball();
    assert_eq!(ball, Ball::new(1, 1));
    assert_eq!(ball.shape, Shape(Vec2::new(BALL_SIZE, BALL_SIZE)));
    let (player, ai) = spawn_paddles(&window);
    assert_eq!(player.position, pos(350_000, 0));
    assert_eq!(ai.position, pos(-350_000, 0));
    assert_eq!(player.shape, Shape(Vec2::new(PADDLE_WIDTH, PADDLE_HEIGHT)));
    let (top, bottom) = spawn_gutters(&window);
    assert_eq!(top.position, pos(0, 290_000));
    assert_eq!(bottom.position, pos(0, -290_000));
    assert_eq!(top.shape, Shape(Vec2::new(800_000, GUTTER_HEIGHT)));
}

#[test]
fn ball_past_right_edge_scores_for_ai() {
    let mut w = world_800_by_600();
    w.ball.position = pos(400_001, 0);
    let out = w.frame();
    assert_eq!(out.scored, Some(Scored(Scorer::Ai)));
    assert!(out.scoreboard_changed);
    assert_eq!(w.score, Score { player: 0, ai: 1 });
    assert_eq!(w.scoreboard, Scoreboard { player: 0, ai: 1 });
    assert_eq!(w.ball.position, pos(0, 0));
    assert_eq!(w.ball.velocity, vel(-1, 1));
}

#[test]
fn ball_past_left_edge_scores_for_player() {
    let mut w = world_800_by_600();
    w.ball.position = pos(-400_500, 1000);
    let out = w.frame();
    assert_eq!(out.scored, Some(Scored(Scorer::Player)));
    assert_eq!(w.score, Score { player: 1, ai: 0 });
    assert_eq!(w.ball.velocity, vel(1, 1));
}

#[test]
fn exit_scores_once() {
    let mut w = world_800_by_600();
    w.ball.position = pos(450_000, 0);
    assert_eq!(w.frame().scored, Some(Scored(Scorer::Ai)));
    let out = w.frame();
    assert_eq!(out.scored, None);
    assert!(!out.scoreboard_changed);
    assert_eq!(w.score.ai, 1);
}

#[test]
fn frame_keeps_the_single_ball() {
    let mut w = world_800_by_600();
    let shape = w.ball.shape;
    let player = w.player;
    w.ball.position = pos(450_000, 0);
    w.frame();
    assert_eq!(w.ball.shape, shape);
    assert_eq!(w.player, player);
}

#[test]
fn score_never_decreases_over_a_game() {
    let mut w = world_800_by_600();
    let mut last = w.score;
    let mut i = 0;
    while i < 500 {
        w.fixed_tick(i % 3 == 0, i % 5 == 0, 16);
        assert_eq!(w.score, last);
        w.frame();
        assert!(w.score.player >= last.player && w.score.ai >= last.ai);
        last = w.score;
        i += 1;
    }
    assert!(w.score.player + w.score.ai > 0);
}

#[test]
fn paddles_stay_in_bounds_over_a_game() {
    let mut w = world_800_by_600();
    let mut i = 0;
    while i < 300 {
        w.fixed_tick(true, false, 16);
        w.frame();
        assert!(2 * w.player.position.0.y.abs() < 600_000 - 2 * GUTTER_HEIGHT - PADDLE_HEIGHT);
        assert!(2 * w.ai.position.0.y.abs() < 600_000 - 2 * GUTTER_HEIGHT - PADDLE_HEIGHT);
        i += 1;
    }
    assert_eq!(w.player.position.0.y, 252_000);
}

#[test]
fn fixed_tick_runs_each_system() {
    let mut w = world_800_by_600();
    w.fixed_tick(false, true, 16);
    assert_eq!(w.ball.position, pos(5016, 5016));
    assert_eq!(w.ai.velocity, vel(0, 1));
    assert_eq!(w.ai.position, pos(-350_000, 6000));
    assert_eq!(w.player.velocity, vel(0, -1));
    assert_eq!(w.player.position, pos(350_000, -6000));
    assert_eq!(w.ball.velocity, vel(1, 1));
}

#[test]
fn new_world_has_entity_sizes_and_rest() {
    let w = world_800_by_600();
    assert_eq!(w.ball.shape, Shape(Vec2::new(8000, 8000)));
    assert_eq!(w.player.shape, Shape(Vec2::new(10_000, 50_000)));
    assert_eq!(w.ai.shape, Shape(Vec2::new(10_000, 50_000)));
    assert_eq!(w.player.velocity, vel(0, 0));
    assert_eq!(w.ai.velocity, vel(0, 0));
    assert_eq!(w.top_gutter.shape, Shape(Vec2::new(800_000, 20_000)));
    assert_eq!(w.bottom_gutter.shape, Shape(Vec2::new(800_000, 20_000)));
}
