//! The world state and the rollback adapter around it.
//!
//! `Game` owns every piece of mutable gameplay data: the frame counter,
//! the scores, the two paddles and the ball.  It answers exactly the three
//! commands an external rollback scheduler issues: save a snapshot, load a
//! snapshot, advance one frame.

use vstd::prelude::*;

use crate::ball::Ball;
use crate::controller::{decode_input, decode_input_spec};
use crate::paddle::Paddle;
use crate::snapshot::{
    deserialize_spec, deserialize_game, serialize_spec, serialize_game, Snapshot, SnapshotModel,
};
use crate::GameError;

verus! {

/// The whole mutable world: frame counter, scores, paddles, ball.  The
/// sole unit of save/load/checksum; nothing gameplay-mutable lives outside
/// it.
#[derive(Clone, Copy, Debug)]
pub struct Game {
    pub game_frame: i32,
    pub scores: [u8; 2],
    pub paddles: [Paddle; 2],
    pub ball: Ball,
}

/// Two worlds with equal fields are equal: array fields compare
/// elementwise.
pub proof fn lemma_game_eq(a: Game, b: Game)
    requires
        a.game_frame == b.game_frame,
        a.scores[0] == b.scores[0],
        a.scores[1] == b.scores[1],
        a.paddles[0] == b.paddles[0],
        a.paddles[1] == b.paddles[1],
        a.ball == b.ball,
    ensures
        a == b,
{
    assert(a.scores =~= b.scores);
    assert(a.paddles =~= b.paddles);
}

impl PartialEq for Game {
    /// Field-for-field equality of two world states.
    fn eq(&self, other: &Game) -> (r: bool) {
        let r = self.game_frame == other.game_frame && self.scores[0] == other.scores[0]
            && self.scores[1] == other.scores[1] && self.paddles[0] == other.paddles[0]
            && self.paddles[1] == other.paddles[1] && self.ball == other.ball;
        proof {
            if r {
                lemma_game_eq(*self, *other);
            }
        }
        r
    }
}

impl vstd::std_specs::cmp::PartialEqSpecImpl for Game {
    open spec fn obeys_eq_spec() -> bool {
        true
    }

    open spec fn eq_spec(&self, other: &Game) -> bool {
        *self == *other
    }
}

/// A score counter after one point: wraps on overflow by design rather
/// than failing.
pub open spec fn bump_score_spec(s: u8) -> u8 {
    if s == 255 {
        0
    } else {
        (s + 1) as u8
    }
}

/// The frame counter after one tick; wraps at the 32-bit limit (over a
/// year of continuous play at 60 ticks per second).
pub open spec fn next_frame_counter_spec(f: i32) -> i32 {
    if f == i32::MAX {
        i32::MIN
    } else {
        (f + 1) as i32
    }
}

impl Game {
    /// Well-formedness: both paddles and the ball are well-formed.  The
    /// frame counter and the scores may hold any value.
    pub open spec fn wf(self) -> bool {
        &&& self.paddles[0].wf()
        &&& self.paddles[1].wf()
        &&& self.ball.wf()
    }

    /// The initial world: frame 0, no points, both paddles at their start
    /// positions, the ball served from the center.
    pub open spec fn new_spec() -> Game {
        Game {
            game_frame: 0,
            scores: [0u8, 0u8],
            paddles: [Paddle::new_spec(0), Paddle::new_spec(1)],
            ball: Ball::new_spec(),
        }
    }

    pub fn new() -> (g: Game)
        ensures
            g == Game::new_spec(),
            g.wf(),
    {
        let g = Game {
            game_frame: 0,
            scores: [0u8, 0u8],
            paddles: [Paddle::new(0), Paddle::new(1)],
            ball: Ball::new(),
        };
        proof {
            lemma_game_eq(g, Game::new_spec());
        }
        g
    }

    /// The world after one simulation tick driven by the two players' raw
    /// input bytes: each player's bytes are decoded (any malformed input
    /// fails the whole tick and leaves the world untouched), the decoded
    /// intents are assigned to the paddles, the paddles move, the ball
    /// moves against the updated paddles, a scoring event bumps the
    /// scorer's counter (wrapping), and the frame counter advances by one.
    pub open spec fn next_frame_spec(self, bytes0: Seq<u8>, bytes1: Seq<u8>) -> Result<
        Game,
        GameError,
    > {
        let d0 = decode_input_spec(bytes0);
        let d1 = decode_input_spec(bytes1);
        if d0 is Err || d1 is Err {
            Err(GameError::DecodeError)
        } else {
            let p0 = Paddle { rect: self.paddles[0].rect, input: d0->Ok_0 }.update_spec();
            let p1 = Paddle { rect: self.paddles[1].rect, input: d1->Ok_0 }.update_spec();
            let ball = self.ball.update_spec(p0, p1);
            let score = self.ball.score_spec(p0, p1);
            let scores = if score == Option::Some(0usize) {
                [bump_score_spec(self.scores[0]), self.scores[1]]
            } else if score == Option::Some(1usize) {
                [self.scores[0], bump_score_spec(self.scores[1])]
            } else {
                self.scores
            };
            Ok(
                Game {
                    game_frame: next_frame_counter_spec(self.game_frame),
                    scores,
                    paddles: [p0, p1],
                    ball,
                },
            )
        }
    }

    /// Advances the world by one tick, `inputs` holding each player's raw
    /// encoded intent.  Malformed bytes are a fatal decode error, never a
    /// silently substituted default.
    pub fn next_frame(&mut self, inputs: &[Vec<u8>; 2]) -> (r: Result<(), GameError>)
        requires
            old(self).wf(),
        ensures
            final(self).wf(),
            match r {
                Ok(()) => old(self).next_frame_spec(inputs[0]@, inputs[1]@) == Ok::<
                    Game,
                    GameError,
                >(*final(self)),
                Err(e) => old(self).next_frame_spec(inputs[0]@, inputs[1]@) == Err::<
                    Game,
                    GameError,
                >(e) && *final(self) == *old(self),
            },
    {
        let d0 = match decode_input(inputs[0].as_slice()) {
            Ok(i) => i,
            Err(_) => {
                return Err(GameError::DecodeError);
            },
        };
        let d1 = match decode_input(inputs[1].as_slice()) {
            Ok(i) => i,
            Err(_) => {
                return Err(GameError::DecodeError);
            },
        };
        let mut p0 = Paddle { rect: self.paddles[0].rect, input: d0 };
        let mut p1 = Paddle { rect: self.paddles[1].rect, input: d1 };
        p0.update();
        p1.update();
        self.paddles = [p0, p1];
        let score = self.ball.update(&self.paddles);
        match score {
            Option::Some(player) => {
                let s0 = self.scores[0];
                let s1 = self.scores[1];
                if player == 0 {
                    self.scores = [if s0 == 255 { 0 } else { s0 + 1 }, s1];
                } else {
                    self.scores = [s0, if s1 == 255 { 0 } else { s1 + 1 }];
                }
            },
            Option::None => {},
        }
        self.game_frame = if self.game_frame == i32::MAX {
            i32::MIN
        } else {
            self.game_frame + 1
        };
        proof {
            let spec_g = old(self).next_frame_spec(inputs[0]@, inputs[1]@)->Ok_0;
            lemma_game_eq(*self, spec_g);
        }
        Ok(())
    }

    /// What a save request yields: the serialized world with its
    /// checksum, tagged with the requested frame — but only when the
    /// requested frame is the world's own frame.  A mismatch means the
    /// scheduler and the simulation disagree on "now", a consistency
    /// violation this core cannot repair.
    pub open spec fn save_spec(self, frame: i32) -> Result<SnapshotModel, GameError> {
        if frame != self.game_frame {
            Err(GameError::FrameMismatch)
        } else {
            Ok(
                SnapshotModel {
                    frame,
                    buffer: serialize_spec(self),
                    checksum: fletcher16_spec(serialize_spec(self)),
                },
            )
        }
    }

    /// Serves a save request for the given frame.
    pub fn save_game_state(&self, frame: i32) -> (r: Result<Snapshot, GameError>)
        ensures
            match r {
                Ok(snap) => self.save_spec(frame) == Ok::<SnapshotModel, GameError>(snap@),
                Err(e) => self.save_spec(frame) == Err::<SnapshotModel, GameError>(e),
            },
    {
        if frame != self.game_frame {
            return Err(GameError::FrameMismatch);
        }
        let buffer = serialize_game(self);
        let checksum = fletcher16(buffer.as_slice());
        Ok(Snapshot { frame, buffer, checksum })
    }

    /// Serves a load request: replaces the world wholesale with the one
    /// the buffer holds, so no stale substate survives a rollback.  A
    /// buffer that does not decode to a well-formed world is rejected and
    /// the current world kept.
    pub fn load_game_state(&mut self, buffer: &[u8]) -> (r: Result<(), GameError>)
        requires
            old(self).wf(),
        ensures
            final(self).wf(),
            match r {
                Ok(()) => deserialize_spec(buffer@) == Ok::<Game, GameError>(*final(self)),
                Err(e) => deserialize_spec(buffer@) == Err::<Game, GameError>(e) && *final(self)
                    == *old(self),
            },
    {
        match deserialize_game(buffer) {
            Ok(g) => {
                *self = g;
                Ok(())
            },
            Err(e) => Err(e),
        }
    }

    /// The display-only blend of two world states: continuous fields of
    /// the paddles and the ball interpolated, the frame counter and the
    /// scores (discrete fields) taken verbatim from the current state.
    pub open spec fn blend_spec(self, previous: Game, alpha: int) -> Game {
        Game {
            game_frame: self.game_frame,
            scores: self.scores,
            paddles: [
                self.paddles[0].blend_spec(previous.paddles[0], alpha),
                self.paddles[1].blend_spec(previous.paddles[1], alpha),
            ],
            ball: self.ball.blend_spec(previous.ball, alpha),
        }
    }

    /// Blends this (current) state with the previous tick's state for
    /// rendering between ticks.
    pub fn blend(&self, previous: &Game, alpha: i32) -> (g: Game)
        requires
            self.wf(),
            previous.wf(),
            0 <= alpha <= crate::blend::BLEND_ALPHA_MAX,
        ensures
            g == self.blend_spec(*previous, alpha as int),
    {
        let p0 = self.paddles[0].blend(&previous.paddles[0], alpha);
        let p1 = self.paddles[1].blend(&previous.paddles[1], alpha);
        let g = Game {
            game_frame: self.game_frame,
            scores: self.scores,
            paddles: [p0, p1],
            ball: self.ball.blend(&previous.ball, alpha),
        };
        proof {
            lemma_game_eq(g, self.blend_spec(*previous, alpha as int));
        }
        g
    }
}

/// One command from the rollback scheduler, in the vocabulary it uses:
/// save the current world for a frame, load a saved buffer, or advance
/// one frame with both players' raw inputs.
pub enum Request {
    SaveGameState { frame: i32 },
    LoadGameState { buffer: Vec<u8> },
    AdvanceFrame { inputs: [Vec<u8>; 2] },
}

/// The outcome of processing a request list: the world reached, the
/// snapshots produced by save commands in order, and the error that
/// stopped processing, if one did.
pub ghost struct ProcessOutcome {
    pub state: Game,
    pub saves: Seq<SnapshotModel>,
    pub err: Option<GameError>,
}

impl Game {
    /// One command's effect: the world afterwards and the snapshot it
    /// produced, if any; or the error that refused it, leaving the world
    /// unchanged.
    pub open spec fn step_spec(self, req: Request) -> Result<
        (Game, Option<SnapshotModel>),
        GameError,
    > {
        match req {
            Request::SaveGameState { frame } => match self.save_spec(frame) {
                Ok(snap) => Ok((self, Option::Some(snap))),
                Err(e) => Err(e),
            },
            Request::LoadGameState { buffer } => match deserialize_spec(buffer@) {
                Ok(g) => Ok((g, Option::None)),
                Err(e) => Err(e),
            },
            Request::AdvanceFrame { inputs } => match self.next_frame_spec(
                inputs[0]@,
                inputs[1]@,
            ) {
                Ok(g) => Ok((g, Option::None)),
                Err(e) => Err(e),
            },
        }
    }

    /// Processing a request list strictly in order: the first error stops
    /// everything, with the world as the failing command found it.
    pub open spec fn process_spec(self, reqs: Seq<Request>) -> ProcessOutcome
        decreases reqs.len(),
    {
        if reqs.len() == 0 {
            ProcessOutcome { state: self, saves: Seq::empty(), err: Option::None }
        } else {
            match self.step_spec(reqs[0]) {
                Err(e) => ProcessOutcome {
                    state: self,
                    saves: Seq::empty(),
                    err: Option::Some(e),
                },
                Ok((g, snap)) => {
                    let rest = g.process_spec(reqs.subrange(1, reqs.len() as int));
                    ProcessOutcome {
                        state: rest.state,
                        saves: (match snap {
                            Option::Some(s) => seq![s],
                            Option::None => Seq::empty(),
                        }) + rest.saves,
                        err: rest.err,
                    }
                },
            }
        }
    }

    /// Processes the scheduler's commands for one of its ticks, strictly
    /// in list order.  On success returns the snapshots the save commands
    /// produced, in order; the first failing command stops the batch with
    /// its error and leaves the world as that command found it.
    pub fn update(&mut self, requests: Vec<Request>) -> (r: Result<Vec<Snapshot>, GameError>)
        requires
            old(self).wf(),
        ensures
            final(self).wf(),
            match r {
                Ok(snaps) => ({
                    let out = old(self).process_spec(requests@);
                    &&& out.err is None
                    &&& *final(self) == out.state
                    &&& snaps@.map_values(|s: Snapshot| s@) == out.saves
                }),
                Err(e) => ({
                    let out = old(self).process_spec(requests@);
                    &&& out.err == Option::Some(e)
                    &&& *final(self) == out.state
                }),
            },
    {
        let ghost full = old(self).process_spec(requests@);
        let mut snaps: Vec<Snapshot> = Vec::new();
        let mut i: usize = 0;
        proof {
            assert(requests@.skip(0) =~= requests@);
            assert(snaps@.map_values(|s: Snapshot| s@) =~= Seq::<SnapshotModel>::empty());
            assert(snaps@.map_values(|s: Snapshot| s@) + full.saves =~= full.saves);
        }
        while i < requests.len()
            invariant
                0 <= i <= requests@.len(),
                self.wf(),
                full == old(self).process_spec(requests@),
                ({
                    let rest = self.process_spec(requests@.skip(i as int));
                    &&& full.state == rest.state
                    &&& full.saves == snaps@.map_values(|s: Snapshot| s@) + rest.saves
                    &&& full.err == rest.err
                }),
            decreases requests@.len() - i,
        {
            proof {
                let tail = requests@.skip(i as int);
                assert(tail.len() > 0);
                assert(tail[0] == requests@[i as int]);
                assert(tail.subrange(1, tail.len() as int) =~= requests@.skip(i as int + 1));
            }
            let step = match &requests[i] {
                Request::SaveGameState { frame } => {
                    match self.save_game_state(*frame) {
                        Ok(snap) => {
                            proof {
                                assert(snaps@.push(snap).map_values(|s: Snapshot| s@) =~= snaps@
                                    .map_values(|s: Snapshot| s@).push(snap@));
                            }
                            snaps.push(snap);
                            Ok(())
                        },
                        Err(e) => Err(e),
                    }
                },
                Request::LoadGameState { buffer } => self.load_game_state(buffer.as_slice()),
                Request::AdvanceFrame { inputs } => self.next_frame(inputs),
            };
            match step {
                Ok(()) => {},
                Err(e) => {
                    return Err(e);
                },
            }
            i = i + 1;
        }
        proof {
            assert(requests@.skip(requests@.len() as int) =~= Seq::<Request>::empty());
            assert(full.saves =~= snaps@.map_values(|s: Snapshot| s@));
        }
        Ok(snaps)
    }
}

/// The running sums of the Fletcher-16 checksum over `data`, processed
/// left to right: each byte is added to the first sum and the first sum to
/// the second, both modulo 255.
pub open spec fn fletcher16_sums(data: Seq<u8>) -> (u16, u16)
    decreases data.len(),
{
    if data.len() == 0 {
        (0u16, 0u16)
    } else {
        let (s1, s2) = fletcher16_sums(data.drop_last());
        let n1 = ((s1 + data.last()) % 255) as u16;
        let n2 = ((s2 + n1) % 255) as u16;
        (n1, n2)
    }
}

/// The Fletcher-16 checksum: the second sum in the high byte, the first
/// in the low byte.
pub open spec fn fletcher16_spec(data: Seq<u8>) -> u16 {
    let (s1, s2) = fletcher16_sums(data);
    (s2 << 8) | s1
}

/// Computes the Fletcher-16 checksum of a buffer.
pub fn fletcher16(data: &[u8]) -> (c: u16)
    ensures
        c == fletcher16_spec(data@),
{
    let mut sum1: u16 = 0;
    let mut sum2: u16 = 0;
    let mut index: usize = 0;
    while index < data.len()
        invariant
            0 <= index <= data@.len(),
            (sum1, sum2) == fletcher16_sums(data@.take(index as int)),
            sum1 < 255,
            sum2 < 255,
        decreases data@.len() - index,
    {
        sum1 = (sum1 + data[index] as u16) % 255;
        sum2 = (sum2 + sum1) % 255;
        proof {
            let t = data@.take(index as int + 1);
            assert(t.drop_last() =~= data@.take(index as int));
            assert(t.last() == data@[index as int]);
            assert(t.len() == index as int + 1);
        }
        index = index + 1;
    }
    proof {
        assert(data@.take(data@.len() as int) =~= data@);
    }
    (sum2 << 8) | sum1
}

/// Identical buffers always carry identical Fletcher-16 checksums: the
/// checksum is a function of the bytes alone.
pub proof fn lemma_fletcher16_deterministic(a: Seq<u8>, b: Seq<u8>)
    requires
        a == b,
    ensures
        fletcher16_spec(a) == fletcher16_spec(b),
{
}

impl Game {
    /// The world after replaying a whole run of ticks, each tick fed both
    /// players' raw input bytes; the first decode failure stops the
    /// replay.
    pub open spec fn replay_spec(self, inputs: Seq<(Seq<u8>, Seq<u8>)>) -> Result<
        Game,
        GameError,
    >
        decreases inputs.len(),
    {
        if inputs.len() == 0 {
            Ok(self)
        } else {
            match self.next_frame_spec(inputs[0].0, inputs[0].1) {
                Ok(g) => g.replay_spec(inputs.subrange(1, inputs.len() as int)),
                Err(e) => Err(e),
            }
        }
    }
}

/// Round trip at the adapter level: a save for the current frame always
/// succeeds, and loading the buffer it produced restores the same world,
/// field for field.
pub proof fn lemma_save_load_round_trip(g: Game)
    requires
        g.wf(),
    ensures
        g.save_spec(g.game_frame) is Ok,
        deserialize_spec(g.save_spec(g.game_frame)->Ok_0.buffer) == Ok::<Game, GameError>(g),
{
    crate::snapshot::lemma_snapshot_round_trip(g);
}

/// Determinism: replaying the same inputs from equal initial worlds
/// reaches equal worlds, and in particular byte-identical serializations.
/// Every tick is a function of the world and the inputs alone — no clock,
/// no randomness — so two replays cannot diverge.
pub proof fn lemma_replay_deterministic(a: Game, b: Game, inputs: Seq<(Seq<u8>, Seq<u8>)>)
    requires
        a == b,
    ensures
        a.replay_spec(inputs) == b.replay_spec(inputs),
        a.replay_spec(inputs) is Ok ==> serialize_spec(a.replay_spec(inputs)->Ok_0)
            == serialize_spec(b.replay_spec(inputs)->Ok_0),
{
}

/// Scoring and reset: on a tick whose collision scan reaches the left
/// wall (ball center minus radius at most zero, neither horizontal wall
/// hit first), the tick succeeds for any decodable inputs, player 1's
/// score is bumped (wrapping) while player 0's is untouched, and the ball
/// restarts from the serve state: recentered with the canonical serve
/// velocity, to which the tick then applies the uniform post-collision
/// speed-up and one tick of position integration, as it does after every
/// collision.
pub proof fn lemma_left_wall_scores(g: Game, bytes0: Seq<u8>, bytes1: Seq<u8>)
    requires
        g.wf(),
        decode_input_spec(bytes0) is Ok,
        decode_input_spec(bytes1) is Ok,
        g.ball.position.y - g.ball.radius > 0,
        g.ball.position.y + g.ball.radius < crate::SCREEN_HEIGHT,
        g.ball.position.x - g.ball.radius <= 0,
    ensures
        ({
            let r = g.next_frame_spec(bytes0, bytes1);
            let vx = crate::ball::speed_up_spec(crate::ball::BALL_VELOCITY_X as int);
            let vy = crate::ball::speed_up_spec(crate::ball::BALL_VELOCITY_Y as int);
            &&& r is Ok
            &&& r->Ok_0.scores[1] == bump_score_spec(g.scores[1])
            &&& r->Ok_0.scores[0] == g.scores[0]
            &&& r->Ok_0.ball.velocity.x == vx
            &&& r->Ok_0.ball.velocity.y == vy
            &&& r->Ok_0.ball.position.x == crate::ball::FIELD_CENTER_X + vx
            &&& r->Ok_0.ball.position.y == crate::ball::FIELD_CENTER_Y + vy
            &&& r->Ok_0.ball.radius == crate::ball::BALL_RADIUS
        }),
{
    let d0 = decode_input_spec(bytes0);
    let d1 = decode_input_spec(bytes1);
    let p0 = Paddle { rect: g.paddles[0].rect, input: d0->Ok_0 }.update_spec();
    let p1 = Paddle { rect: g.paddles[1].rect, input: d1->Ok_0 }.update_spec();
    assert(g.ball.check_collisions_spec(p0, p1) == Option::Some(
        crate::collision_result::CollisionResult::Left,
    ));
    assert(g.ball.score_spec(p0, p1) == Option::Some(1usize));
    let vx = crate::ball::speed_up_spec(crate::ball::BALL_VELOCITY_X as int);
    let vy = crate::ball::speed_up_spec(crate::ball::BALL_VELOCITY_Y as int);
    assert(0 <= vx <= crate::fixed::VEL_LIMIT && 0 <= vy <= crate::fixed::VEL_LIMIT);
    let ball = g.ball.update_spec(p0, p1);
    assert(ball.velocity.x == vx && ball.velocity.y == vy);
    assert(ball.position.x == crate::fixed::clamp_spec(
        crate::ball::FIELD_CENTER_X + vx,
        -crate::fixed::POS_LIMIT as int,
        crate::fixed::POS_LIMIT as int,
    ));
}

/// Interpolation boundary: at blend weight `0` every continuous field of
/// the blended state equals the previous state's, while the discrete
/// fields (frame counter, scores, inputs) come verbatim from the current
/// state; at blend weight `BLEND_ONE` the blended state is the current
/// state, field for field.
pub proof fn lemma_blend_endpoints(current: Game, previous: Game)
    ensures
        ({
            let at0 = current.blend_spec(previous, 0);
            &&& at0.paddles[0].rect == previous.paddles[0].rect
            &&& at0.paddles[1].rect == previous.paddles[1].rect
            &&& at0.ball.position == previous.ball.position
            &&& at0.ball.velocity == previous.ball.velocity
            &&& at0.ball.radius == previous.ball.radius
            &&& at0.game_frame == current.game_frame
            &&& at0.scores == current.scores
            &&& at0.paddles[0].input == current.paddles[0].input
            &&& at0.paddles[1].input == current.paddles[1].input
        }),
        current.blend_spec(previous, crate::blend::BLEND_ONE as int) == current,
{
    crate::blend::lemma_lerp_endpoints(
        current.paddles[0].rect.x as int,
        previous.paddles[0].rect.x as int,
    );
    crate::blend::lemma_lerp_endpoints(
        current.paddles[0].rect.y as int,
        previous.paddles[0].rect.y as int,
    );
    crate::blend::lemma_lerp_endpoints(
        current.paddles[0].rect.w as int,
        previous.paddles[0].rect.w as int,
    );
    crate::blend::lemma_lerp_endpoints(
        current.paddles[0].rect.h as int,
        previous.paddles[0].rect.h as int,
    );
    crate::blend::lemma_lerp_endpoints(
        current.paddles[1].rect.x as int,
        previous.paddles[1].rect.x as int,
    );
    crate::blend::lemma_lerp_endpoints(
        current.paddles[1].rect.y as int,
        previous.paddles[1].rect.y as int,
    );
    crate::blend::lemma_lerp_endpoints(
        current.paddles[1].rect.w as int,
        previous.paddles[1].rect.w as int,
    );
    crate::blend::lemma_lerp_endpoints(
        current.paddles[1].rect.h as int,
        previous.paddles[1].rect.h as int,
    );
    crate::blend::lemma_lerp_endpoints(
        current.ball.position.x as int,
        previous.ball.position.x as int,
    );
    crate::blend::lemma_lerp_endpoints(
        current.ball.position.y as int,
        previous.ball.position.y as int,
    );
    crate::blend::lemma_lerp_endpoints(
        current.ball.velocity.x as int,
        previous.ball.velocity.x as int,
    );
    crate::blend::lemma_lerp_endpoints(
        current.ball.velocity.y as int,
        previous.ball.velocity.y as int,
    );
    crate::blend::lemma_lerp_endpoints(current.ball.radius as int, previous.ball.radius as int);
    let at1 = current.blend_spec(previous, crate::blend::BLEND_ONE as int);
    assert(at1.paddles[0] == current.paddles[0]);
    assert(at1.paddles[1] == current.paddles[1]);
    assert(at1.ball == current.ball);
    lemma_game_eq(at1, current);
}

} // verus!
