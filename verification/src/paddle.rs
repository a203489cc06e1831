//! The paddles: vertically moving rectangles driven by decoded input.

use vstd::prelude::*;

use crate::ball::Ball;
use crate::controller::Input;
use crate::fixed::{clamp_spec, clamp_i32, Vec2i};
use crate::{SCREEN_HEIGHT, SCREEN_WIDTH, UNIT};

verus! {

/// How far a paddle moves in one tick, in milliunits (300 units per second
/// at 60 ticks per second).
pub const PADDLE_STEP: i32 = 5 * UNIT;

/// Paddle width in milliunits.
pub const DEFAULT_WIDTH: i32 = 15 * UNIT;

/// Paddle height in milliunits.
pub const DEFAULT_HEIGHT: i32 = 75 * UNIT;

/// Horizontal distance of each paddle from its screen edge, in milliunits.
pub const EDGE_OFFSET: i32 = 25 * UNIT;

/// Vertical start position: the middle of the playfield.
pub const START_Y: i32 = 300 * UNIT;

/// An axis-aligned rectangle in milliunits.
#[derive(Clone, Copy, Debug, PartialEq, Eq, Structural)]
pub struct Rect {
    pub x: i32,
    pub y: i32,
    pub w: i32,
    pub h: i32,
}

/// One player's paddle: its rectangle and the input decoded for the
/// current tick.
#[derive(Clone, Copy, Debug, PartialEq, Eq, Structural)]
pub struct Paddle {
    pub rect: Rect,
    pub input: Option<Input>,
}

impl Paddle {
    /// Well-formedness: the rectangle lies in the playfield and the paddle
    /// respects its vertical bounds.  Constructors establish this and
    /// `update` preserves it.
    pub open spec fn wf(self) -> bool {
        &&& 0 <= self.rect.x <= SCREEN_WIDTH
        &&& 0 <= self.rect.w <= SCREEN_WIDTH
        &&& 0 <= self.rect.h <= SCREEN_HEIGHT
        &&& 0 <= self.rect.y <= SCREEN_HEIGHT - self.rect.h
    }

    /// The paddle a player starts with: player 0 near the left edge,
    /// every other player near the right edge, both vertically centered.
    pub open spec fn new_spec(player: usize) -> Paddle {
        Paddle {
            rect: Rect {
                x: if player == 0 {
                    EDGE_OFFSET
                } else {
                    (SCREEN_WIDTH - EDGE_OFFSET - DEFAULT_WIDTH) as i32
                },
                y: START_Y,
                w: DEFAULT_WIDTH,
                h: DEFAULT_HEIGHT,
            },
            input: Option::None,
        }
    }

    pub fn new(player: usize) -> (p: Paddle)
        ensures
            p == Paddle::new_spec(player),
            p.wf(),
    {
        let x: i32 = if player == 0 {
            EDGE_OFFSET
        } else {
            SCREEN_WIDTH - EDGE_OFFSET - DEFAULT_WIDTH
        };
        Paddle {
            rect: Rect { x, y: START_Y, w: DEFAULT_WIDTH, h: DEFAULT_HEIGHT },
            input: Option::None,
        }
    }

    /// Where one tick moves the paddle: up or down by `PADDLE_STEP`
    /// according to its input, then clamped into the playfield; no input,
    /// no change.
    pub open spec fn update_spec(self) -> Paddle {
        match self.input {
            Option::None => self,
            Option::Some(input) => {
                let moved = self.rect.y + (match input {
                    Input::Up => -PADDLE_STEP as int,
                    Input::Down => PADDLE_STEP as int,
                });
                let clamped = clamp_spec(moved, 0, SCREEN_HEIGHT - self.rect.h);
                Paddle {
                    rect: Rect { x: self.rect.x, y: clamped as i32, w: self.rect.w, h: self.rect.h },
                    input: self.input,
                }
            },
        }
    }

    /// Advances the paddle by one tick.  The vertical bound `0 <= y <=
    /// SCREEN_HEIGHT - h` can never be left, whatever the input.
    pub fn update(&mut self)
        requires
            old(self).wf(),
        ensures
            *final(self) == old(self).update_spec(),
            final(self).wf(),
            final(self).rect.x == old(self).rect.x,
            final(self).rect.w == old(self).rect.w,
            final(self).rect.h == old(self).rect.h,
            final(self).input == old(self).input,
            0 <= final(self).rect.y <= SCREEN_HEIGHT - final(self).rect.h,
    {
        match self.input {
            Option::None => {},
            Option::Some(input) => {
                let moved: i32 = match input {
                    Input::Up => self.rect.y - PADDLE_STEP,
                    Input::Down => self.rect.y + PADDLE_STEP,
                };
                self.rect.y = clamp_i32(moved, 0, SCREEN_HEIGHT - self.rect.h);
            },
        }
    }

    /// The paddle after a whole run of ticks, one intent per tick.
    pub open spec fn replay_spec(self, inputs: Seq<Option<Input>>) -> Paddle
        decreases inputs.len(),
    {
        if inputs.len() == 0 {
            self
        } else {
            Paddle { rect: self.rect, input: inputs[0] }.update_spec().replay_spec(
                inputs.subrange(1, inputs.len() as int),
            )
        }
    }

    /// One tick keeps a well-formed paddle well-formed: in particular its
    /// vertical position stays in `[0, SCREEN_HEIGHT - h]`.
    pub proof fn lemma_update_preserves_wf(self)
        requires
            self.wf(),
        ensures
            self.update_spec().wf(),
            self.update_spec().rect.h == self.rect.h,
    {
    }

    /// However many ticks run and whatever Up/Down inputs drive them, the
    /// paddle never leaves its vertical bounds.
    pub proof fn lemma_replay_stays_in_bounds(self, inputs: Seq<Option<Input>>)
        requires
            self.wf(),
        ensures
            self.replay_spec(inputs).wf(),
            0 <= self.replay_spec(inputs).rect.y <= SCREEN_HEIGHT - self.replay_spec(
                inputs,
            ).rect.h,
        decreases inputs.len(),
    {
        if inputs.len() > 0 {
            let first = Paddle { rect: self.rect, input: inputs[0] };
            first.lemma_update_preserves_wf();
            first.update_spec().lemma_replay_stays_in_bounds(
                inputs.subrange(1, inputs.len() as int),
            );
        }
    }

    /// The display-only blend of two paddle states: the rectangle is
    /// interpolated componentwise; the input, a discrete field, is taken
    /// verbatim from the current state.
    pub open spec fn blend_spec(self, previous: Paddle, alpha: int) -> Paddle {
        Paddle {
            rect: Rect {
                x: crate::blend::lerp_spec(self.rect.x as int, previous.rect.x as int, alpha)
                    as i32,
                y: crate::blend::lerp_spec(self.rect.y as int, previous.rect.y as int, alpha)
                    as i32,
                w: crate::blend::lerp_spec(self.rect.w as int, previous.rect.w as int, alpha)
                    as i32,
                h: crate::blend::lerp_spec(self.rect.h as int, previous.rect.h as int, alpha)
                    as i32,
            },
            input: self.input,
        }
    }

    /// Blends this (current) paddle with the previous tick's paddle.
    pub fn blend(&self, previous: &Paddle, alpha: i32) -> (p: Paddle)
        requires
            self.wf(),
            previous.wf(),
            0 <= alpha <= crate::blend::BLEND_ALPHA_MAX,
        ensures
            p == self.blend_spec(*previous, alpha as int),
    {
        Paddle {
            rect: Rect {
                x: crate::blend::lerp(self.rect.x, previous.rect.x, alpha),
                y: crate::blend::lerp(self.rect.y, previous.rect.y, alpha),
                w: crate::blend::lerp(self.rect.w, previous.rect.w, alpha),
                h: crate::blend::lerp(self.rect.h, previous.rect.h, alpha),
            },
            input: self.input,
        }
    }

    /// The collision test against the ball, as a function of both states:
    /// the closest point of the rectangle to the ball's center is found by
    /// clamping the center-to-center offset to the half-extents; there is a
    /// collision when that point lies strictly closer than the radius.  On
    /// collision the *center-to-center* offset is reported (see
    /// `CollisionResult::Paddle` for why).
    pub open spec fn check_collision_spec(self, ball: Ball) -> Option<Vec2i>
        recommends
            self.wf(),
            ball.wf(),
    {
        let hw = self.rect.w as int / 2;
        let hh = self.rect.h as int / 2;
        let dx = ball.position.x - (self.rect.x + hw);
        let dy = ball.position.y - (self.rect.y + hh);
        let ex = clamp_spec(dx, -hw, hw) - dx;
        let ey = clamp_spec(dy, -hh, hh) - dy;
        if ex * ex + ey * ey < (ball.radius as int) * (ball.radius as int) {
            Option::Some(Vec2i { x: dx as i32, y: dy as i32 })
        } else {
            Option::None
        }
    }

    /// Tests for a collision against the ball; on collision returns the
    /// direction the bounce will follow.
    pub fn check_collision_against_ball(&self, ball: &Ball) -> (r: Option<Vec2i>)
        requires
            self.wf(),
            ball.wf(),
        ensures
            r == self.check_collision_spec(*ball),
    {
        let hw: i64 = (self.rect.w as i64) / 2;
        let hh: i64 = (self.rect.h as i64) / 2;
        let dx: i64 = ball.position.x as i64 - (self.rect.x as i64 + hw);
        let dy: i64 = ball.position.y as i64 - (self.rect.y as i64 + hh);
        let cx: i64 = if dx < -hw { -hw } else if dx > hw { hw } else { dx };
        let cy: i64 = if dy < -hh { -hh } else if dy > hh { hh } else { dy };
        let ex: i64 = cx - dx;
        let ey: i64 = cy - dy;
        let r64: i64 = ball.radius as i64;
        proof {
            assert(ex * ex <= 2_000_000_000_000_000_000 && ex * ex >= 0) by (nonlinear_arith)
                requires -1_100_000_000 <= ex <= 1_100_000_000;
            assert(ey * ey <= 2_000_000_000_000_000_000 && ey * ey >= 0) by (nonlinear_arith)
                requires -1_100_000_000 <= ey <= 1_100_000_000;
            assert(r64 * r64 <= 2_000_000_000_000_000_000 && r64 * r64 >= 0) by (nonlinear_arith)
                requires 0 <= r64 <= 1_100_000_000;
        }
        if ex * ex + ey * ey < r64 * r64 {
            Some(Vec2i { x: dx as i32, y: dy as i32 })
        } else {
            None
        }
    }
}

} // verus!
