//! Save/load: lossless round trips, validation, and the frame sanity
//! check.

use p2pong::controller::{encode_input, Input};
use p2pong::game::Game;
use p2pong::snapshot::{deserialize_game, serialize_game, STATE_SIZE};
use p2pong::GameError;

fn both(intent0: Option<Input>, intent1: Option<Input>) -> [Vec<u8>; 2] {
    [encode_input(intent0), encode_input(intent1)]
}

#[test]
fn serialized_state_has_fixed_size() {
    let g = Game::new();
    assert_eq!(serialize_game(&g).len(), STATE_SIZE);
}

#[test]
fn fresh_state_round_trips() {
    let g = Game::new();
    let bytes = serialize_game(&g);
    assert_eq!(deserialize_game(&bytes), Ok(g));
}

#[test]
fn advanced_state_round_trips_field_for_field() {
    let mut g = Game::new();
    for _ in 0..10 {
        g.next_frame(&both(Some(Input::Up), Some(Input::Down))).unwrap();
    }
    let bytes = serialize_game(&g);
    let restored = deserialize_game(&bytes).unwrap();
    assert_eq!(restored.game_frame, g.game_frame);
    assert_eq!(restored.scores, g.scores);
    assert_eq!(restored.paddles[0], g.paddles[0]);
    assert_eq!(restored.paddles[1], g.paddles[1]);
    assert_eq!(restored.ball, g.ball);
    assert_eq!(restored, g);
}

#[test]
fn save_tags_frame_buffer_and_checksum() {
    let mut g = Game::new();
    g.next_frame(&both(None, None)).unwrap();
    let snap = g.save_game_state(1).unwrap();
    assert_eq!(snap.frame, 1);
    assert_eq!(snap.buffer, serialize_game(&g));
    assert_eq!(snap.checksum, p2pong::game::fletcher16(&snap.buffer));
}

#[test]
fn save_for_wrong_frame_is_a_consistency_error() {
    let g = Game::new();
    assert_eq!(g.save_game_state(5).err(), Some(GameError::FrameMismatch));
}

#[test]
fn load_replaces_state_wholesale() {
    let mut original = Game::new();
    original.next_frame(&both(Some(Input::Down), None)).unwrap();
    let snap = original.save_game_state(1).unwrap();

    let mut other = Game::new();
    for _ in 0..5 {
        other.next_frame(&both(Some(Input::Up), Some(Input::Up))).unwrap();
    }
    other.load_game_state(&snap.buffer).unwrap();
    assert_eq!(other, original);
}

#[test]
fn wrong_length_buffer_is_rejected() {
    let mut g = Game::new();
    assert_eq!(g.load_game_state(&[0u8; 59]), Err(GameError::DecodeError));
    assert_eq!(g.load_game_state(&[]), Err(GameError::DecodeError));
    assert_eq!(g, Game::new());
}

#[test]
fn unknown_input_code_is_rejected() {
    let g = Game::new();
    let mut bytes = serialize_game(&g);
    bytes[22] = 9;
    let mut target = Game::new();
    assert_eq!(target.load_game_state(&bytes), Err(GameError::DecodeError));
}

#[test]
fn out_of_bounds_field_is_rejected() {
    let g = Game::new();
    let mut bytes = serialize_game(&g);
    // Paddle 0's height bytes: an absurd height fails validation.
    bytes[18] = 0xFF;
    bytes[19] = 0xFF;
    bytes[20] = 0xFF;
    bytes[21] = 0xFF;
    let mut target = Game::new();
    assert_eq!(target.load_game_state(&bytes), Err(GameError::DecodeError));
}
