//! Per-player intent and its fixed-size wire codec.
//!
//! An intent is `Option<Input>`: `None` (no movement), `Up` or `Down`.
//! Exactly one intent is produced per player per tick.  The codec maps each
//! intent to a single byte so that cross-peer transmission never depends on
//! variable-length framing, and decoding garbage is an error rather than a
//! silent default, since a silently substituted input would mask a desync.

use vstd::prelude::*;

use crate::GameError;

verus! {

/// A player's movement intent for one tick.
#[derive(Clone, Copy, Debug, PartialEq, Eq, Structural)]
pub enum Input {
    Up,
    Down,
}

/// Number of bytes the codec produces for one intent.
pub const INPUT_SIZE: usize = 1;

/// Byte assigned to each intent.
pub open spec fn input_code(input: Option<Input>) -> u8 {
    match input {
        Option::None => 0,
        Option::Some(Input::Up) => 1,
        Option::Some(Input::Down) => 2,
    }
}

/// What `encode_input` returns.
pub open spec fn encode_input_spec(input: Option<Input>) -> Seq<u8> {
    seq![input_code(input)]
}

/// The intent a single byte stands for, or an error when it is none of
/// the three codes.
pub open spec fn input_from_code(code: u8) -> Result<Option<Input>, GameError> {
    if code == 0 {
        Ok(Option::None)
    } else if code == 1 {
        Ok(Option::Some(Input::Up))
    } else if code == 2 {
        Ok(Option::Some(Input::Down))
    } else {
        Err(GameError::DecodeError)
    }
}

/// What `decode_input` returns: the unique intent whose encoding is `bytes`,
/// or an error when there is none.
pub open spec fn decode_input_spec(bytes: Seq<u8>) -> Result<Option<Input>, GameError> {
    if bytes.len() != 1 {
        Err(GameError::DecodeError)
    } else {
        input_from_code(bytes[0])
    }
}

/// Maps one intent to its byte code.
pub fn input_to_byte(input: Option<Input>) -> (code: u8)
    ensures
        code == input_code(input),
{
    match input {
        Option::None => 0,
        Option::Some(Input::Up) => 1,
        Option::Some(Input::Down) => 2,
    }
}

/// Maps one byte code back to an intent; fails on the other byte values.
pub fn input_from_byte(code: u8) -> (r: Result<Option<Input>, GameError>)
    ensures
        r == input_from_code(code),
{
    if code == 0 {
        Ok(Option::None)
    } else if code == 1 {
        Ok(Option::Some(Input::Up))
    } else if code == 2 {
        Ok(Option::Some(Input::Down))
    } else {
        Err(GameError::DecodeError)
    }
}

/// Encodes one intent as exactly `INPUT_SIZE` bytes.  Total: every intent
/// has an encoding.
pub fn encode_input(input: Option<Input>) -> (bytes: Vec<u8>)
    ensures
        bytes@ == encode_input_spec(input),
        bytes@.len() == INPUT_SIZE,
{
    let code: u8 = input_to_byte(input);
    let mut bytes: Vec<u8> = Vec::new();
    bytes.push(code);
    assert(bytes@ =~= encode_input_spec(input));
    bytes
}

/// Decodes one intent.  Fails on any byte sequence that `encode_input`
/// cannot produce; never substitutes a default.
pub fn decode_input(bytes: &[u8]) -> (r: Result<Option<Input>, GameError>)
    ensures
        r == decode_input_spec(bytes@),
{
    if bytes.len() != 1 {
        Err(GameError::DecodeError)
    } else if bytes[0] == 0 {
        Ok(Option::None)
    } else if bytes[0] == 1 {
        Ok(Option::Some(Input::Up))
    } else if bytes[0] == 2 {
        Ok(Option::Some(Input::Down))
    } else {
        Err(GameError::DecodeError)
    }
}

/// Decoding inverts encoding: every intent survives a codec round trip.
pub proof fn lemma_input_codec_round_trip(input: Option<Input>)
    ensures
        decode_input_spec(encode_input_spec(input)) == Ok::<Option<Input>, GameError>(input),
{
}

/// Holds the most recently read local intent.  Reading the keyboard itself
/// happens outside the core; the value read is stored here.
#[derive(Clone, Copy)]
pub struct Controller {
    pub input: Option<Input>,
}

impl Controller {
    pub fn new() -> (c: Controller)
        ensures
            c.input is None,
    {
        Controller { input: Option::None }
    }
}

impl Default for Controller {
    fn default() -> (c: Controller)
        ensures
            c.input is None,
    {
        Controller::new()
    }
}

} // verus!
