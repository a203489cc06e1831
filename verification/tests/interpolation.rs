//! The fixed-step driver and the display blend.

use p2pong::blend::{lerp, BLEND_ONE};
use p2pong::controller::{encode_input, Input};
use p2pong::driver::{FixedStepDriver, SLOW_TICK_MICROS, TICK_MICROS};
use p2pong::game::Game;

fn both(intent0: Option<Input>, intent1: Option<Input>) -> [Vec<u8>; 2] {
    [encode_input(intent0), encode_input(intent1)]
}

#[test]
fn lerp_hits_both_endpoints_exactly() {
    assert_eq!(lerp(123_456, -9_876, 0), -9_876);
    assert_eq!(lerp(123_456, -9_876, BLEND_ONE), 123_456);
    assert_eq!(lerp(2_000, 1_000, 500), 1_500);
}

#[test]
fn blend_at_zero_shows_previous_continuous_fields() {
    let previous = Game::new();
    let mut current = Game::new();
    current.next_frame(&both(Some(Input::Up), Some(Input::Down))).unwrap();

    let shown = current.blend(&previous, 0);
    assert_eq!(shown.ball.position, previous.ball.position);
    assert_eq!(shown.paddles[0].rect, previous.paddles[0].rect);
    assert_eq!(shown.paddles[1].rect, previous.paddles[1].rect);
    // Discrete fields come from the current state.
    assert_eq!(shown.game_frame, current.game_frame);
    assert_eq!(shown.scores, current.scores);
}

#[test]
fn blend_at_one_is_the_current_state() {
    let previous = Game::new();
    let mut current = Game::new();
    current.next_frame(&both(None, Some(Input::Up))).unwrap();
    assert_eq!(current.blend(&previous, BLEND_ONE), current);
}

#[test]
fn blend_midway_averages_positions() {
    let previous = Game::new();
    let mut current = Game::new();
    current.next_frame(&both(None, None)).unwrap();
    let shown = current.blend(&previous, 500);
    let expected_x = (current.ball.position.x + previous.ball.position.x) / 2;
    assert_eq!(shown.ball.position.x, expected_x);
}

#[test]
fn driver_emits_whole_ticks_and_keeps_the_remainder() {
    let mut d = FixedStepDriver::new();
    assert_eq!(d.begin_frame(TICK_MICROS, false), 1);
    assert_eq!(d.accumulator_micros, 0);
    assert_eq!(d.alpha(), 0);

    assert_eq!(d.begin_frame(TICK_MICROS / 2, false), 0);
    assert_eq!(d.accumulator_micros, TICK_MICROS / 2);
    // Half a tick of leftover blends halfway (truncated).
    assert_eq!(d.alpha(), (TICK_MICROS / 2 * 1000 / TICK_MICROS) as i32);

    // The other half completes exactly one tick.
    assert_eq!(d.begin_frame(TICK_MICROS - TICK_MICROS / 2, false), 1);
    assert_eq!(d.accumulator_micros, 0);
}

#[test]
fn driver_throttles_while_running_ahead() {
    let mut d = FixedStepDriver::new();
    // A plain tick's worth of time is not enough for a stretched tick.
    assert_eq!(d.begin_frame(TICK_MICROS, true), 0);
    assert_eq!(d.accumulator_micros, TICK_MICROS);
    // Topping up to the stretched duration runs the tick.
    assert_eq!(d.begin_frame(SLOW_TICK_MICROS - TICK_MICROS, true), 1);
    assert_eq!(d.accumulator_micros, 0);
}

#[test]
fn driver_catches_up_with_multiple_ticks() {
    let mut d = FixedStepDriver::new();
    let ticks = d.begin_frame(5 * TICK_MICROS + 7, false);
    assert_eq!(ticks, 5);
    assert_eq!(d.accumulator_micros, 7);
}
