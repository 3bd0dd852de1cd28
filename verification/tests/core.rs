use pong::ball::Ball;
use pong::player::{Intent, Paddle, Player, CLAMP_MARGIN};
use pong::{collide, is_out_of_bounds, CollideType, OutOfBoundsType, Size, Transform, Vec2};

fn arena() -> Size {
    Size { width: 800, height: 400 }
}

fn ball_extent() -> Size {
    Size { width: 20, height: 20 }
}

fn paddle_extent() -> Size {
    Size { width: 20, height: 60 }
}

fn make_ball(px: i64, py: i64, vx: i64, vy: i64) -> Ball {
    Ball {
        transform: Transform {
            position: Vec2 { x: px, y: py },
            velocity: Vec2 { x: vx, y: vy },
        },
        extent: ball_extent(),
    }
}

fn make_player(px: i64, py: i64, vy: i64) -> Player {
    Player {
        id: 0,
        score: 0,
        paddle: Paddle {
            transform: Transform {
                position: Vec2 { x: px, y: py },
                velocity: Vec2 { x: 0, y: vy },
            },
            extent: paddle_extent(),
        },
    }
}

// Bounds classification: one class per region, priority on simultaneous
// violations (left > right > top > bottom > in-bounds).

#[test]
fn bounds_left() {
    let r = is_out_of_bounds(Vec2 { x: -1, y: 190 }, ball_extent(), arena());
    assert_eq!(r, OutOfBoundsType::Left);
}

#[test]
fn bounds_right() {
    let r = is_out_of_bounds(Vec2 { x: 790, y: 190 }, ball_extent(), arena());
    assert_eq!(r, OutOfBoundsType::Right);
}

#[test]
fn bounds_top() {
    let r = is_out_of_bounds(Vec2 { x: 100, y: -5 }, ball_extent(), arena());
    assert_eq!(r, OutOfBoundsType::Top);
}

#[test]
fn bounds_bottom() {
    let r = is_out_of_bounds(Vec2 { x: 100, y: 395 }, ball_extent(), arena());
    assert_eq!(r, OutOfBoundsType::Bottom);
}

#[test]
fn bounds_in_bounds() {
    let r = is_out_of_bounds(Vec2 { x: 100, y: 100 }, ball_extent(), arena());
    assert_eq!(r, OutOfBoundsType::InBounds);
}

#[test]
fn bounds_priority_left_beats_top() {
    let r = is_out_of_bounds(Vec2 { x: -5, y: -5 }, ball_extent(), arena());
    assert_eq!(r, OutOfBoundsType::Left);
}

#[test]
fn bounds_priority_right_beats_bottom() {
    let r = is_out_of_bounds(Vec2 { x: 790, y: 395 }, ball_extent(), arena());
    assert_eq!(r, OutOfBoundsType::Right);
}

#[test]
fn bounds_priority_top_beats_bottom() {
    // taller than the arena: violates top and bottom at once
    let tall = Size { width: 10, height: 500 };
    let r = is_out_of_bounds(Vec2 { x: 100, y: -5 }, tall, arena());
    assert_eq!(r, OutOfBoundsType::Top);
}

// Collision classification.

#[test]
fn collide_face_hit_is_horizontal() {
    let r = collide(
        Vec2 { x: 100, y: 100 },
        ball_extent(),
        Vec2 { x: 105, y: 105 },
        paddle_extent(),
    );
    assert_eq!(r, CollideType::Horizontal);
}

#[test]
fn collide_flush_edge_is_vertical() {
    // ball bottom edge exactly on paddle top edge
    let r = collide(
        Vec2 { x: 100, y: 100 },
        ball_extent(),
        Vec2 { x: 105, y: 120 },
        paddle_extent(),
    );
    assert_eq!(r, CollideType::Vertical);
}

#[test]
fn collide_far_horizontally_is_separate() {
    let r = collide(
        Vec2 { x: 100, y: 100 },
        ball_extent(),
        Vec2 { x: 300, y: 100 },
        paddle_extent(),
    );
    assert_eq!(r, CollideType::Separate);
}

#[test]
fn collide_separate_consistent_in_both_orders() {
    // far apart horizontally: separate whichever rectangle comes first
    let a = Vec2 { x: 100, y: 100 };
    let b = Vec2 { x: 300, y: 100 };
    assert_eq!(
        collide(a, ball_extent(), b, paddle_extent()),
        CollideType::Separate
    );
    assert_eq!(
        collide(b, paddle_extent(), a, ball_extent()),
        CollideType::Separate
    );
}

#[test]
fn collide_near_x_far_y_is_separate() {
    let r = collide(
        Vec2 { x: 100, y: 100 },
        ball_extent(),
        Vec2 { x: 105, y: 200 },
        paddle_extent(),
    );
    assert_eq!(r, CollideType::Separate);
}

#[test]
fn collide_degenerate_zero_extent_is_separate() {
    let zero = Size { width: 0, height: 0 };
    let p = Vec2 { x: 100, y: 100 };
    assert_eq!(collide(p, zero, p, zero), CollideType::Separate);
}

// Ball/paddle resolution.

#[test]
fn face_hit_reflects_horizontal_velocity() {
    let mut ball = make_ball(100, 100, 50, 60);
    let players = [make_player(105, 105, 0)];
    ball.check_player_collision(&players);
    assert_eq!(ball.transform.velocity, Vec2 { x: -50, y: 60 });
    assert_eq!(ball.transform.position, Vec2 { x: 100, y: 100 });
}

#[test]
fn face_hit_moving_paddle_steers_vertical_velocity() {
    let mut ball = make_ball(100, 100, 50, 60);
    let players = [make_player(105, 105, -1)];
    ball.check_player_collision(&players);
    assert_eq!(ball.transform.velocity, Vec2 { x: -50, y: -60 });
}

#[test]
fn edge_hit_reflects_vertical_velocity_and_nudges_up() {
    // ball resting exactly on the paddle's top edge
    let mut ball = make_ball(100, 100, 50, 60);
    let players = [make_player(105, 120, 0)];
    ball.check_player_collision(&players);
    assert_eq!(ball.transform.velocity, Vec2 { x: 50, y: -60 });
    assert_eq!(ball.transform.position, Vec2 { x: 100, y: 99 });
}

#[test]
fn edge_hit_under_paddle_nudges_down() {
    // ball's top edge exactly on the paddle's bottom edge
    let mut ball = make_ball(100, 100, 50, -60);
    let players = [make_player(105, 40, 0)];
    ball.check_player_collision(&players);
    assert_eq!(ball.transform.velocity, Vec2 { x: 50, y: 60 });
    assert_eq!(ball.transform.position, Vec2 { x: 100, y: 101 });
}

#[test]
fn only_first_overlapping_paddle_resolves() {
    let mut ball = make_ball(100, 100, 50, 60);
    // both paddles overlap the ball; the second one moves, but only the
    // first (still) paddle may steer the ball
    let players = [make_player(105, 105, 0), make_player(95, 95, -1)];
    ball.check_player_collision(&players);
    assert_eq!(ball.transform.velocity, Vec2 { x: -50, y: 60 });
}

#[test]
fn no_overlap_leaves_ball_unchanged() {
    let mut ball = make_ball(100, 100, 50, 60);
    let players = [make_player(400, 100, 1), make_player(700, 300, 0)];
    ball.check_player_collision(&players);
    assert_eq!(ball.transform.position, Vec2 { x: 100, y: 100 });
    assert_eq!(ball.transform.velocity, Vec2 { x: 50, y: 60 });
}

// Out-of-bounds resolution: scoring, respawn, bounce.

#[test]
fn left_exit_scores_right_side_player() {
    let mut ball = make_ball(-1, 190, -30, 20);
    let mut left_score: usize = 3;
    let mut right_score: usize = 5;
    ball.check_out_of_bounds(
        arena(),
        &mut left_score,
        &mut right_score,
        Vec2 { x: 7, y: -9 },
    );
    assert_eq!(right_score, 6);
    assert_eq!(left_score, 3);
    // respawn at arena center minus half the extent
    assert_eq!(ball.transform.position, Vec2 { x: 390, y: 190 });
    assert_eq!(ball.transform.velocity, Vec2 { x: 7, y: -9 });
}

#[test]
fn right_exit_scores_left_side_player() {
    let mut ball = make_ball(790, 100, 30, 20);
    let mut left_score: usize = 0;
    let mut right_score: usize = 0;
    ball.check_out_of_bounds(
        arena(),
        &mut left_score,
        &mut right_score,
        Vec2 { x: -4, y: 2 },
    );
    assert_eq!(left_score, 1);
    assert_eq!(right_score, 0);
    assert_eq!(ball.transform.position, Vec2 { x: 390, y: 190 });
    assert_eq!(ball.transform.velocity, Vec2 { x: -4, y: 2 });
}

#[test]
fn top_exit_bounces_without_scoring() {
    let mut ball = make_ball(100, -5, 30, -40);
    let mut left_score: usize = 2;
    let mut right_score: usize = 2;
    ball.check_out_of_bounds(
        arena(),
        &mut left_score,
        &mut right_score,
        Vec2 { x: 1, y: 1 },
    );
    assert_eq!(left_score, 2);
    assert_eq!(right_score, 2);
    assert_eq!(ball.transform.position, Vec2 { x: 100, y: -5 });
    assert_eq!(ball.transform.velocity, Vec2 { x: 30, y: 40 });
}

#[test]
fn bottom_exit_bounces_without_scoring() {
    let mut ball = make_ball(100, 395, 30, 40);
    let mut left_score: usize = 0;
    let mut right_score: usize = 0;
    ball.check_out_of_bounds(
        arena(),
        &mut left_score,
        &mut right_score,
        Vec2 { x: 1, y: 1 },
    );
    assert_eq!(left_score, 0);
    assert_eq!(right_score, 0);
    assert_eq!(ball.transform.velocity, Vec2 { x: 30, y: -40 });
}

#[test]
fn in_bounds_ball_is_untouched() {
    let mut ball = make_ball(100, 100, 30, 40);
    let mut left_score: usize = 0;
    let mut right_score: usize = 0;
    ball.check_out_of_bounds(
        arena(),
        &mut left_score,
        &mut right_score,
        Vec2 { x: 1, y: 1 },
    );
    assert_eq!(left_score, 0);
    assert_eq!(right_score, 0);
    assert_eq!(ball.transform.position, Vec2 { x: 100, y: 100 });
    assert_eq!(ball.transform.velocity, Vec2 { x: 30, y: 40 });
}

// Integration.

#[test]
fn ball_tick_moves_and_accelerates() {
    let mut ball = make_ball(0, 0, 500000, -10);
    ball.tick(16, 1, 10000);
    assert_eq!(ball.transform.position, Vec2 { x: 8000000, y: -160 });
    // |v| grows by |v| * 1 * 16 / 10000, rounded down, keeping the sign
    assert_eq!(ball.transform.velocity, Vec2 { x: 500800, y: -10 });
}

#[test]
fn ball_speed_strictly_grows_over_ticks() {
    let mut ball = make_ball(0, 0, 50000, -30000);
    let mut previous =
        ball.transform.velocity.x * ball.transform.velocity.x
            + ball.transform.velocity.y * ball.transform.velocity.y;
    for _ in 0..5 {
        ball.tick(16, 1, 10000);
        let current =
            ball.transform.velocity.x * ball.transform.velocity.x
                + ball.transform.velocity.y * ball.transform.velocity.y;
        assert!(current > previous);
        previous = current;
    }
}

// Paddle control.

#[test]
fn intents_set_velocity() {
    let mut player = make_player(650, 170, 0);
    player.process_input(Intent::Up);
    assert_eq!(player.paddle.transform.velocity, Vec2 { x: 0, y: -1 });
    player.process_input(Intent::Down);
    assert_eq!(player.paddle.transform.velocity, Vec2 { x: 0, y: 1 });
    player.process_input(Intent::Neutral);
    assert_eq!(player.paddle.transform.velocity, Vec2 { x: 0, y: 0 });
}

#[test]
fn paddle_moves_within_bounds() {
    let mut player = make_player(650, 100, 0);
    player.process_input(Intent::Down);
    player.tick(arena(), 10, 2);
    assert_eq!(player.paddle.transform.position, Vec2 { x: 650, y: 120 });
    assert_eq!(player.paddle.transform.velocity, Vec2 { x: 0, y: 1 });
}

#[test]
fn paddle_clamps_at_top_and_stops() {
    let mut player = make_player(650, 10, 0);
    player.process_input(Intent::Up);
    player.tick(arena(), 10, 2);
    assert_eq!(player.paddle.transform.position.y, CLAMP_MARGIN);
    assert_eq!(player.paddle.transform.velocity.y, 0);
}

#[test]
fn paddle_clamps_at_bottom_and_stops() {
    let mut player = make_player(650, 330, 0);
    player.process_input(Intent::Down);
    player.tick(arena(), 10, 2);
    // arena height minus paddle height minus the clamp margin
    assert_eq!(player.paddle.transform.position.y, 400 - 60 - CLAMP_MARGIN);
    assert_eq!(player.paddle.transform.velocity.y, 0);
}

#[test]
fn paddle_stays_inside_over_any_intent_sequence() {
    let mut player = make_player(650, 170, 0);
    let intents = [
        Intent::Up,
        Intent::Up,
        Intent::Down,
        Intent::Neutral,
        Intent::Down,
        Intent::Up,
    ];
    for _ in 0..50 {
        for intent in intents {
            player.process_input(intent);
            player.tick(arena(), 50, 7);
            let y = player.paddle.transform.position.y;
            assert!(0 <= y && y <= 400 - 60);
        }
    }
}

// Spawning.

#[test]
fn ball_spawns_centered_with_given_velocity() {
    let ball = Ball::spawn(arena(), ball_extent(), Vec2 { x: 3, y: 4 });
    assert_eq!(ball.transform.position, Vec2 { x: 390, y: 190 });
    assert_eq!(ball.transform.velocity, Vec2 { x: 3, y: 4 });
    assert_eq!(ball.extent, ball_extent());
}

#[test]
fn player_spawns_vertically_centered_at_rest() {
    let player = Player::spawn(arena(), paddle_extent(), 1, 650);
    assert_eq!(player.id, 1);
    assert_eq!(player.score, 0);
    assert_eq!(player.paddle.transform.position, Vec2 { x: 650, y: 170 });
    assert_eq!(player.paddle.transform.velocity, Vec2 { x: 0, y: 0 });
}
