//! The input codec: fixed-size encoding, exact decoding, no silent
//! defaults.

use p2pong::controller::{decode_input, encode_input, Input, INPUT_SIZE};
use p2pong::GameError;

#[test]
fn encode_is_fixed_size() {
    assert_eq!(encode_input(None).len(), INPUT_SIZE);
    assert_eq!(encode_input(Some(Input::Up)).len(), INPUT_SIZE);
    assert_eq!(encode_input(Some(Input::Down)).len(), INPUT_SIZE);
}

#[test]
fn codec_round_trips_every_intent() {
    for intent in [None, Some(Input::Up), Some(Input::Down)] {
        let bytes = encode_input(intent);
        assert_eq!(decode_input(&bytes), Ok(intent));
    }
}

#[test]
fn encodings_are_distinct() {
    let none = encode_input(None);
    let up = encode_input(Some(Input::Up));
    let down = encode_input(Some(Input::Down));
    assert_ne!(none, up);
    assert_ne!(none, down);
    assert_ne!(up, down);
}

#[test]
fn garbage_bytes_fail_to_decode() {
    assert_eq!(decode_input(&[]), Err(GameError::DecodeError));
    assert_eq!(decode_input(&[3]), Err(GameError::DecodeError));
    assert_eq!(decode_input(&[255]), Err(GameError::DecodeError));
    assert_eq!(decode_input(&[0, 0]), Err(GameError::DecodeError));
}
