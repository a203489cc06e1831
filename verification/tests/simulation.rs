//! The tick itself: paddle motion and clamping, wall bounces, scoring,
//! the bounce's speed preservation, determinism, and the command list.

use p2pong::ball::{
    paddle_bounce, Ball, BALL_RADIUS, BALL_VELOCITY_X, BALL_VELOCITY_Y, FIELD_CENTER_X,
    FIELD_CENTER_Y,
};
use p2pong::controller::{encode_input, Controller, Input};
use p2pong::fixed::Vec2i;
use p2pong::game::{fletcher16, Game, Request};
use p2pong::paddle::{Paddle, PADDLE_STEP, START_Y};
use p2pong::snapshot::serialize_game;
use p2pong::{GameError, SCREEN_HEIGHT};

fn both(intent0: Option<Input>, intent1: Option<Input>) -> [Vec<u8>; 2] {
    [encode_input(intent0), encode_input(intent1)]
}

#[test]
fn controller_starts_without_input() {
    assert!(Controller::new().input.is_none());
    assert!(Controller::default().input.is_none());
}

#[test]
fn paddle_moves_up_and_down_by_one_step() {
    let mut p = Paddle::new(0);
    assert_eq!(p.rect.y, START_Y);
    p.input = Some(Input::Up);
    p.update();
    assert_eq!(p.rect.y, START_Y - PADDLE_STEP);
    p.input = Some(Input::Down);
    p.update();
    p.update();
    assert_eq!(p.rect.y, START_Y + PADDLE_STEP);
    p.input = None;
    p.update();
    assert_eq!(p.rect.y, START_Y + PADDLE_STEP);
}

#[test]
fn paddle_never_leaves_its_vertical_bounds() {
    let mut p = Paddle::new(1);
    for _ in 0..200 {
        p.input = Some(Input::Up);
        p.update();
        assert!(p.rect.y >= 0);
    }
    assert_eq!(p.rect.y, 0);
    for _ in 0..200 {
        p.input = Some(Input::Down);
        p.update();
        assert!(p.rect.y <= SCREEN_HEIGHT - p.rect.h);
    }
    assert_eq!(p.rect.y, SCREEN_HEIGHT - p.rect.h);
}

#[test]
fn ball_serves_from_center() {
    let b = Ball::new();
    assert_eq!(b.position, Vec2i { x: FIELD_CENTER_X, y: FIELD_CENTER_Y });
    assert_eq!(b.velocity, Vec2i { x: BALL_VELOCITY_X, y: BALL_VELOCITY_Y });
    assert_eq!(b.radius, BALL_RADIUS);
}

#[test]
fn plain_tick_integrates_position() {
    let mut g = Game::new();
    g.next_frame(&both(None, None)).unwrap();
    assert_eq!(g.game_frame, 1);
    assert_eq!(g.ball.position.x, FIELD_CENTER_X + BALL_VELOCITY_X);
    assert_eq!(g.ball.position.y, FIELD_CENTER_Y + BALL_VELOCITY_Y);
    assert_eq!(g.ball.velocity, Vec2i { x: BALL_VELOCITY_X, y: BALL_VELOCITY_Y });
    assert_eq!(g.scores, [0, 0]);
}

#[test]
fn top_wall_reflects_and_speeds_up() {
    let mut g = Game::new();
    // Ball center one unit from the top: y - r <= 0 fires.
    g.ball.position = Vec2i { x: FIELD_CENTER_X, y: 4_000 };
    g.next_frame(&both(None, None)).unwrap();
    // The vertical sign flips, then both components speed up 5% and one
    // tick of motion integrates: 2500 -> 2625, 833 -> -874.
    assert_eq!(g.ball.velocity, Vec2i { x: 2_625, y: -874 });
    assert_eq!(g.ball.position, Vec2i { x: FIELD_CENTER_X + 2_625, y: 4_000 - 874 });
}

#[test]
fn left_wall_scores_for_player_one_and_resets() {
    let mut g = Game::new();
    g.ball.position = Vec2i { x: 4_000, y: FIELD_CENTER_Y };
    g.next_frame(&both(None, None)).unwrap();
    assert_eq!(g.scores, [0, 1]);
    // Reset to center with the serve velocity, sped up 5% and integrated.
    assert_eq!(g.ball.velocity, Vec2i { x: 2_625, y: 874 });
    assert_eq!(g.ball.position, Vec2i { x: FIELD_CENTER_X + 2_625, y: FIELD_CENTER_Y + 874 });
    assert_eq!(g.ball.radius, BALL_RADIUS);
}

#[test]
fn right_wall_scores_for_player_zero_with_negated_serve() {
    let mut g = Game::new();
    g.ball.position = Vec2i { x: p2pong::SCREEN_WIDTH - 4_000, y: FIELD_CENTER_Y };
    g.next_frame(&both(None, None)).unwrap();
    assert_eq!(g.scores, [1, 0]);
    assert_eq!(g.ball.velocity, Vec2i { x: -2_625, y: -874 });
    assert_eq!(g.ball.position, Vec2i { x: FIELD_CENTER_X - 2_625, y: FIELD_CENTER_Y - 874 });
}

#[test]
fn score_wraps_on_overflow() {
    let mut g = Game::new();
    g.scores = [0, 255];
    g.ball.position = Vec2i { x: 4_000, y: FIELD_CENTER_Y };
    g.next_frame(&both(None, None)).unwrap();
    assert_eq!(g.scores, [0, 0]);
}

#[test]
fn bounce_preserves_speed_along_axis() {
    // Speed 5 redirected along the vertical axis keeps magnitude 5.
    assert_eq!(paddle_bounce(Vec2i { x: 3, y: 4 }, Vec2i { x: 0, y: 5 }), (0, 5));
    // And along the negative horizontal axis.
    assert_eq!(paddle_bounce(Vec2i { x: 3, y: 4 }, Vec2i { x: -5, y: 0 }), (-5, 0));
    // A degenerate zero direction leaves the velocity unchanged.
    assert_eq!(paddle_bounce(Vec2i { x: 3, y: 4 }, Vec2i { x: 0, y: 0 }), (3, 4));
}

#[test]
fn paddle_hit_redirects_ball() {
    let mut g = Game::new();
    // Place the ball overlapping paddle 0's face, mid-height.
    let p = g.paddles[0];
    let contact_x = p.rect.x + p.rect.w + BALL_RADIUS - 1_000;
    g.ball.position = Vec2i { x: contact_x, y: p.rect.y + p.rect.h / 2 };
    g.ball.velocity = Vec2i { x: -2_500, y: 0 };
    g.next_frame(&both(None, None)).unwrap();
    // The hit is dead-center, so the bounce points straight right
    // (toward the ball, away from the paddle), sped up 5%.
    assert!(g.ball.velocity.x > 0);
    assert_eq!(g.ball.velocity.y, 0);
    assert_eq!(g.ball.velocity.x, 2_625);
}

#[test]
fn replaying_identical_inputs_is_byte_identical() {
    let script = [
        [Some(Input::Up), None],
        [Some(Input::Up), Some(Input::Down)],
        [None, Some(Input::Down)],
        [None, None],
        [Some(Input::Down), Some(Input::Up)],
    ];
    let mut a = Game::new();
    let mut b = Game::new();
    for step in script {
        a.next_frame(&both(step[0], step[1])).unwrap();
        b.next_frame(&both(step[0], step[1])).unwrap();
    }
    assert_eq!(serialize_game(&a), serialize_game(&b));
    assert_eq!(fletcher16(&serialize_game(&a)), fletcher16(&serialize_game(&b)));
}

#[test]
fn malformed_input_fails_the_tick_and_leaves_state() {
    let mut g = Game::new();
    let before = g;
    let r = g.next_frame(&[vec![9], encode_input(None)]);
    assert_eq!(r, Err(GameError::DecodeError));
    assert_eq!(g, before);
}

#[test]
fn command_list_runs_in_order() {
    let mut g = Game::new();
    let requests = vec![
        Request::SaveGameState { frame: 0 },
        Request::AdvanceFrame { inputs: both(Some(Input::Up), None) },
        Request::SaveGameState { frame: 1 },
    ];
    let snaps = g.update(requests).unwrap();
    assert_eq!(snaps.len(), 2);
    assert_eq!(snaps[0].frame, 0);
    assert_eq!(snaps[1].frame, 1);
    assert_eq!(g.game_frame, 1);
    assert_eq!(snaps[1].buffer, serialize_game(&g));
}

#[test]
fn command_list_stops_at_first_error() {
    let mut g = Game::new();
    let requests = vec![
        Request::AdvanceFrame { inputs: both(None, None) },
        Request::SaveGameState { frame: 7 },
        Request::AdvanceFrame { inputs: both(None, None) },
    ];
    assert_eq!(g.update(requests).err(), Some(GameError::FrameMismatch));
    // The failing save left the world as it found it: one frame advanced.
    assert_eq!(g.game_frame, 1);
}

#[test]
fn load_command_rolls_the_world_back() {
    let mut g = Game::new();
    let snaps = g.update(vec![Request::SaveGameState { frame: 0 }]).unwrap();
    g.update(vec![
        Request::AdvanceFrame { inputs: both(Some(Input::Up), Some(Input::Up)) },
        Request::AdvanceFrame { inputs: both(Some(Input::Up), Some(Input::Up)) },
    ])
    .unwrap();
    assert_eq!(g.game_frame, 2);
    g.update(vec![Request::LoadGameState { buffer: snaps[0].buffer.clone() }]).unwrap();
    assert_eq!(g, Game::new());
}
