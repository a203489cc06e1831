//! Snapshots: the byte-level codec for the whole world state.
//!
//! A snapshot is the serialized world plus a Fletcher-16 checksum, tagged
//! with the frame it was taken at.  The byte layout is this crate's own,
//! written field by field in a fixed order so that the encoding is
//! deterministic across platforms, and it round-trips losslessly: loading
//! a saved buffer reconstructs the world exactly.

use vstd::prelude::*;

use crate::ball::Ball;
use crate::controller::{input_code, input_from_code, input_from_byte, input_to_byte, Input};
use crate::fixed::Vec2i;
use crate::game::Game;
use crate::paddle::{Paddle, Rect};
use crate::GameError;

verus! {

/// Serialized size of one world state, in bytes: a 4-byte frame counter,
/// two score bytes, two 17-byte paddles, one 20-byte ball.
pub const STATE_SIZE: usize = 60;

/// A saved world state: the frame it belongs to, its serialized bytes,
/// and their Fletcher-16 checksum.
#[derive(Debug)]
pub struct Snapshot {
    pub frame: i32,
    pub buffer: Vec<u8>,
    pub checksum: u16,
}

/// The mathematical view of a snapshot.
pub ghost struct SnapshotModel {
    pub frame: i32,
    pub buffer: Seq<u8>,
    pub checksum: u16,
}

impl View for Snapshot {
    type V = SnapshotModel;

    open spec fn view(&self) -> SnapshotModel {
        SnapshotModel { frame: self.frame, buffer: self.buffer@, checksum: self.checksum }
    }
}

/// A signed 32-bit field as four little-endian bytes, offset so that the
/// encoded value is never negative.
pub open spec fn i32_le_bytes(v: i32) -> Seq<u8> {
    vstd::bytes::spec_u32_to_le_bytes(((v as int) + 0x8000_0000) as u32)
}

/// The signed 32-bit field those four bytes stand for.
pub open spec fn i32_from_le_bytes(s: Seq<u8>) -> i32
    recommends
        s.len() == 4,
{
    ((vstd::bytes::spec_u32_from_le_bytes(s) as int) - 0x8000_0000) as i32
}

/// Four bytes in, the same field out: the offset encoding is lossless.
pub proof fn lemma_i32_le_round_trip(v: i32)
    ensures
        i32_le_bytes(v).len() == 4,
        i32_from_le_bytes(i32_le_bytes(v)) == v,
{
    vstd::bytes::lemma_auto_spec_u32_to_from_le_bytes();
    let u = ((v as int) + 0x8000_0000) as u32;
    assert(0 <= (v as int) + 0x8000_0000 < 0x1_0000_0000);
    assert(u as int == (v as int) + 0x8000_0000);
    assert(vstd::bytes::spec_u32_to_le_bytes(u).len() == 4);
    assert(vstd::bytes::spec_u32_from_le_bytes(vstd::bytes::spec_u32_to_le_bytes(u)) == u);
    assert((u as int) - 0x8000_0000 == v as int);
}

/// Appends one signed 32-bit field to the buffer.
fn push_i32_le(out: &mut Vec<u8>, v: i32)
    ensures
        final(out)@ == old(out)@ + i32_le_bytes(v),
{
    let w: u32 = ((v as i64) + 0x8000_0000i64) as u32;
    let mut bytes = vstd::bytes::u32_to_le_bytes(w);
    out.append(&mut bytes);
}

/// Reads one signed 32-bit field at byte offset `off`.
fn read_i32_le(bytes: &[u8], off: usize) -> (v: i32)
    requires
        bytes@.len() == STATE_SIZE,
        off + 4 <= bytes@.len(),
    ensures
        v == i32_from_le_bytes(bytes@.subrange(off as int, off as int + 4)),
{
    let sl = vstd::slice::slice_subrange(bytes, off, off + 4);
    let w = vstd::bytes::u32_from_le_bytes(sl);
    ((w as i64) - 0x8000_0000i64) as i32
}

/// One paddle's bytes: x, y, w, h, then the input code.
pub open spec fn paddle_bytes(p: Paddle) -> Seq<u8> {
    i32_le_bytes(p.rect.x) + i32_le_bytes(p.rect.y) + i32_le_bytes(p.rect.w) + i32_le_bytes(
        p.rect.h,
    ) + seq![input_code(p.input)]
}

/// The ball's bytes: position, velocity, radius.
pub open spec fn ball_bytes(b: Ball) -> Seq<u8> {
    i32_le_bytes(b.position.x) + i32_le_bytes(b.position.y) + i32_le_bytes(b.velocity.x)
        + i32_le_bytes(b.velocity.y) + i32_le_bytes(b.radius)
}

/// The whole world's bytes: frame counter, both scores, both paddles, the
/// ball, in that fixed order.
pub open spec fn serialize_spec(g: Game) -> Seq<u8> {
    i32_le_bytes(g.game_frame) + seq![g.scores[0], g.scores[1]] + paddle_bytes(g.paddles[0])
        + paddle_bytes(g.paddles[1]) + ball_bytes(g.ball)
}

/// The world a 60-byte buffer stands for, before validation.  The input
/// codes are read as intents here; whether they are valid codes is
/// checked by `deserialize_spec`.
pub open spec fn decode_fields_spec(bytes: Seq<u8>) -> Game
    recommends
        bytes.len() == STATE_SIZE,
{
    Game {
        game_frame: i32_from_le_bytes(bytes.subrange(0, 4)),
        scores: [bytes[4], bytes[5]],
        paddles: [
            Paddle {
                rect: Rect {
                    x: i32_from_le_bytes(bytes.subrange(6, 10)),
                    y: i32_from_le_bytes(bytes.subrange(10, 14)),
                    w: i32_from_le_bytes(bytes.subrange(14, 18)),
                    h: i32_from_le_bytes(bytes.subrange(18, 22)),
                },
                input: input_from_code(bytes[22])->Ok_0,
            },
            Paddle {
                rect: Rect {
                    x: i32_from_le_bytes(bytes.subrange(23, 27)),
                    y: i32_from_le_bytes(bytes.subrange(27, 31)),
                    w: i32_from_le_bytes(bytes.subrange(31, 35)),
                    h: i32_from_le_bytes(bytes.subrange(35, 39)),
                },
                input: input_from_code(bytes[39])->Ok_0,
            },
        ],
        ball: Ball {
            position: Vec2i {
                x: i32_from_le_bytes(bytes.subrange(40, 44)),
                y: i32_from_le_bytes(bytes.subrange(44, 48)),
            },
            velocity: Vec2i {
                x: i32_from_le_bytes(bytes.subrange(48, 52)),
                y: i32_from_le_bytes(bytes.subrange(52, 56)),
            },
            radius: i32_from_le_bytes(bytes.subrange(56, 60)),
        },
    }
}

/// What `deserialize_game` returns: the unique well-formed world whose
/// serialization is `bytes`, or an error.  A buffer of the wrong length,
/// an unknown input code, or a world outside its invariants is rejected
/// rather than silently accepted, so a rollback can never resurrect a
/// corrupt state.
pub open spec fn deserialize_spec(bytes: Seq<u8>) -> Result<Game, GameError> {
    if bytes.len() != STATE_SIZE {
        Err(GameError::DecodeError)
    } else if input_from_code(bytes[22]) is Err || input_from_code(bytes[39]) is Err {
        Err(GameError::DecodeError)
    } else {
        let g = decode_fields_spec(bytes);
        if g.wf() {
            Ok(g)
        } else {
            Err(GameError::DecodeError)
        }
    }
}

/// Serializes the world field by field.
pub fn serialize_game(g: &Game) -> (out: Vec<u8>)
    ensures
        out@ == serialize_spec(*g),
        out@.len() == STATE_SIZE,
{
    let mut out: Vec<u8> = Vec::new();
    push_i32_le(&mut out, g.game_frame);
    out.push(g.scores[0]);
    out.push(g.scores[1]);
    push_i32_le(&mut out, g.paddles[0].rect.x);
    push_i32_le(&mut out, g.paddles[0].rect.y);
    push_i32_le(&mut out, g.paddles[0].rect.w);
    push_i32_le(&mut out, g.paddles[0].rect.h);
    out.push(input_to_byte(g.paddles[0].input));
    push_i32_le(&mut out, g.paddles[1].rect.x);
    push_i32_le(&mut out, g.paddles[1].rect.y);
    push_i32_le(&mut out, g.paddles[1].rect.w);
    push_i32_le(&mut out, g.paddles[1].rect.h);
    out.push(input_to_byte(g.paddles[1].input));
    push_i32_le(&mut out, g.ball.position.x);
    push_i32_le(&mut out, g.ball.position.y);
    push_i32_le(&mut out, g.ball.velocity.x);
    push_i32_le(&mut out, g.ball.velocity.y);
    push_i32_le(&mut out, g.ball.radius);
    proof {
        vstd::bytes::lemma_auto_spec_u32_to_from_le_bytes();
        assert(out@ =~= serialize_spec(*g));
    }
    out
}

/// Checks one paddle's invariants.
fn paddle_wf_check(p: &Paddle) -> (b: bool)
    ensures
        b == p.wf(),
{
    0 <= p.rect.x && p.rect.x <= crate::SCREEN_WIDTH && 0 <= p.rect.w && p.rect.w
        <= crate::SCREEN_WIDTH && 0 <= p.rect.h && p.rect.h <= crate::SCREEN_HEIGHT && 0
        <= p.rect.y && p.rect.y <= crate::SCREEN_HEIGHT - p.rect.h
}

/// Checks the ball's invariants.
fn ball_wf_check(b: &Ball) -> (r: bool)
    ensures
        r == b.wf(),
{
    -crate::fixed::POS_LIMIT <= b.position.x && b.position.x <= crate::fixed::POS_LIMIT
        && -crate::fixed::POS_LIMIT <= b.position.y && b.position.y <= crate::fixed::POS_LIMIT
        && -crate::fixed::VEL_LIMIT <= b.velocity.x && b.velocity.x <= crate::fixed::VEL_LIMIT
        && -crate::fixed::VEL_LIMIT <= b.velocity.y && b.velocity.y <= crate::fixed::VEL_LIMIT
        && 0 <= b.radius && b.radius <= crate::SCREEN_HEIGHT
}

/// Deserializes a buffer back into a world state, validating its shape
/// and the world's invariants.
pub fn deserialize_game(bytes: &[u8]) -> (r: Result<Game, GameError>)
    ensures
        r == deserialize_spec(bytes@),
        r is Ok ==> r->Ok_0.wf(),
{
    if bytes.len() != STATE_SIZE {
        return Err(GameError::DecodeError);
    }
    let in0 = match input_from_byte(bytes[22]) {
        Ok(i) => i,
        Err(e) => {
            return Err(GameError::DecodeError);
        },
    };
    let in1 = match input_from_byte(bytes[39]) {
        Ok(i) => i,
        Err(e) => {
            return Err(GameError::DecodeError);
        },
    };
    let g = Game {
        game_frame: read_i32_le(bytes, 0),
        scores: [bytes[4], bytes[5]],
        paddles: [
            Paddle {
                rect: Rect {
                    x: read_i32_le(bytes, 6),
                    y: read_i32_le(bytes, 10),
                    w: read_i32_le(bytes, 14),
                    h: read_i32_le(bytes, 18),
                },
                input: in0,
            },
            Paddle {
                rect: Rect {
                    x: read_i32_le(bytes, 23),
                    y: read_i32_le(bytes, 27),
                    w: read_i32_le(bytes, 31),
                    h: read_i32_le(bytes, 35),
                },
                input: in1,
            },
        ],
        ball: Ball {
            position: Vec2i { x: read_i32_le(bytes, 40), y: read_i32_le(bytes, 44) },
            velocity: Vec2i { x: read_i32_le(bytes, 48), y: read_i32_le(bytes, 52) },
            radius: read_i32_le(bytes, 56),
        },
    };
    proof {
        crate::game::lemma_game_eq(g, decode_fields_spec(bytes@));
    }
    if paddle_wf_check(&g.paddles[0]) && paddle_wf_check(&g.paddles[1]) && ball_wf_check(&g.ball) {
        Ok(g)
    } else {
        Err(GameError::DecodeError)
    }
}

/// Saving then loading reconstructs every well-formed world state
/// field for field: the snapshot codec round-trips losslessly.
pub proof fn lemma_snapshot_round_trip(g: Game)
    requires
        g.wf(),
    ensures
        deserialize_spec(serialize_spec(g)) == Ok::<Game, GameError>(g),
{
    vstd::bytes::lemma_auto_spec_u32_to_from_le_bytes();
    let s = serialize_spec(g);
    assert(s.len() == STATE_SIZE);
    assert(s.subrange(0, 4) =~= i32_le_bytes(g.game_frame));
    assert(s[4] == g.scores[0]);
    assert(s[5] == g.scores[1]);
    assert(s.subrange(6, 10) =~= i32_le_bytes(g.paddles[0].rect.x));
    assert(s.subrange(10, 14) =~= i32_le_bytes(g.paddles[0].rect.y));
    assert(s.subrange(14, 18) =~= i32_le_bytes(g.paddles[0].rect.w));
    assert(s.subrange(18, 22) =~= i32_le_bytes(g.paddles[0].rect.h));
    assert(s[22] == input_code(g.paddles[0].input));
    assert(s.subrange(23, 27) =~= i32_le_bytes(g.paddles[1].rect.x));
    assert(s.subrange(27, 31) =~= i32_le_bytes(g.paddles[1].rect.y));
    assert(s.subrange(31, 35) =~= i32_le_bytes(g.paddles[1].rect.w));
    assert(s.subrange(35, 39) =~= i32_le_bytes(g.paddles[1].rect.h));
    assert(s[39] == input_code(g.paddles[1].input));
    assert(s.subrange(40, 44) =~= i32_le_bytes(g.ball.position.x));
    assert(s.subrange(44, 48) =~= i32_le_bytes(g.ball.position.y));
    assert(s.subrange(48, 52) =~= i32_le_bytes(g.ball.velocity.x));
    assert(s.subrange(52, 56) =~= i32_le_bytes(g.ball.velocity.y));
    assert(s.subrange(56, 60) =~= i32_le_bytes(g.ball.radius));
    lemma_i32_le_round_trip(g.game_frame);
    lemma_i32_le_round_trip(g.paddles[0].rect.x);
    lemma_i32_le_round_trip(g.paddles[0].rect.y);
    lemma_i32_le_round_trip(g.paddles[0].rect.w);
    lemma_i32_le_round_trip(g.paddles[0].rect.h);
    lemma_i32_le_round_trip(g.paddles[1].rect.x);
    lemma_i32_le_round_trip(g.paddles[1].rect.y);
    lemma_i32_le_round_trip(g.paddles[1].rect.w);
    lemma_i32_le_round_trip(g.paddles[1].rect.h);
    lemma_i32_le_round_trip(g.ball.position.x);
    lemma_i32_le_round_trip(g.ball.position.y);
    lemma_i32_le_round_trip(g.ball.velocity.x);
    lemma_i32_le_round_trip(g.ball.velocity.y);
    lemma_i32_le_round_trip(g.ball.radius);
    crate::controller::lemma_input_codec_round_trip(g.paddles[0].input);
    crate::controller::lemma_input_codec_round_trip(g.paddles[1].input);
    assert(input_from_code(s[22]) == Ok::<Option<Input>, GameError>(g.paddles[0].input));
    assert(input_from_code(s[39]) == Ok::<Option<Input>, GameError>(g.paddles[1].input));
    let g2 = decode_fields_spec(s);
    crate::game::lemma_game_eq(g2, g);
}

} // verus!
