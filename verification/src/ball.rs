//! The ball: a circle moving by its velocity, bouncing off walls and
//! paddles, and reporting scoring events.

use vstd::prelude::*;
use vstd::math::abs;

use crate::collision_result::CollisionResult;
use crate::fixed::{
    clamp_spec, clamp_i64_to_i32, isqrt_spec, isqrt_u64, Vec2i, POS_LIMIT, VEL_LIMIT,
};
use crate::paddle::Paddle;
use crate::{SCREEN_HEIGHT, SCREEN_WIDTH, UNIT};

verus! {

/// Speed multiplier applied after a collision: +5% per hit, as a percent.
pub const SPEED_INCREASE_PERCENT: u64 = 105;

/// Horizontal serve speed, in milliunits per tick (150 units per second).
pub const BALL_VELOCITY_X: i32 = 2500;

/// Vertical serve speed, in milliunits per tick (50 units per second).
pub const BALL_VELOCITY_Y: i32 = 833;

/// Ball radius in milliunits.
pub const BALL_RADIUS: i32 = 5 * UNIT;

/// Horizontal center of the playfield.
pub const FIELD_CENTER_X: i32 = 400 * UNIT;

/// Vertical center of the playfield.
pub const FIELD_CENTER_Y: i32 = 300 * UNIT;

/// The ball: position and velocity in milliunits, velocity per tick.
#[derive(Clone, Copy, Debug, PartialEq, Eq, Structural)]
pub struct Ball {
    pub position: Vec2i,
    pub velocity: Vec2i,
    pub radius: i32,
}

/// One velocity component after the post-collision speed-up: magnitude
/// scaled by 5% (truncated), capped at `VEL_LIMIT`, sign kept.
pub open spec fn speed_up_spec(v: int) -> int {
    let m = abs(v);
    let scaled = m * SPEED_INCREASE_PERCENT / 100;
    let capped = if scaled > VEL_LIMIT { VEL_LIMIT as int } else { scaled };
    if v >= 0 {
        capped
    } else {
        -capped
    }
}

/// Applies the post-collision speed-up to one velocity component.
pub fn speed_up(v: i64) -> (r: i32)
    requires
        -10_000_000_000 <= v <= 10_000_000_000,
    ensures
        r == speed_up_spec(v as int),
        -VEL_LIMIT <= r <= VEL_LIMIT,
{
    let m: u64 = if v >= 0 {
        v as u64
    } else {
        (-v) as u64
    };
    let scaled: u64 = m * SPEED_INCREASE_PERCENT / 100;
    let capped: u64 = if scaled > VEL_LIMIT as u64 {
        VEL_LIMIT as u64
    } else {
        scaled
    };
    if v >= 0 {
        capped as i32
    } else {
        -(capped as i32)
    }
}

/// The bounce direction after a paddle hit: the previous speed's magnitude
/// redistributed along the paddle-center-to-ball-center vector `d`, so
/// that speed is preserved up to integer truncation while the direction
/// changes.  Each component is `speed * |d component| / |d|`, truncated,
/// with the sign of the component.  A degenerate `d` of zero length (ball
/// center exactly on paddle center) leaves the velocity unchanged.
pub open spec fn bounce_spec(v: Vec2i, d: Vec2i) -> (int, int) {
    let s = isqrt_spec((v.x * v.x + v.y * v.y) as nat);
    let l = isqrt_spec((d.x * d.x + d.y * d.y) as nat);
    if l == 0 {
        (v.x as int, v.y as int)
    } else {
        let qx = (s as int * abs(d.x as int)) / (l as int);
        let qy = (s as int * abs(d.y as int)) / (l as int);
        (
            if d.x >= 0 {
                qx
            } else {
                -qx
            },
            if d.y >= 0 {
                qy
            } else {
                -qy
            },
        )
    }
}

/// Computes the bounce velocity for a paddle hit.
pub fn paddle_bounce(v: Vec2i, d: Vec2i) -> (r: (i64, i64))
    requires
        -VEL_LIMIT <= v.x <= VEL_LIMIT,
        -VEL_LIMIT <= v.y <= VEL_LIMIT,
    ensures
        (r.0 as int, r.1 as int) == bounce_spec(v, d),
        -200_000_000 <= r.0 <= 200_000_000,
        -200_000_000 <= r.1 <= 200_000_000,
{
    let avx: u64 = if v.x >= 0 {
        v.x as u64
    } else {
        (-(v.x as i64)) as u64
    };
    let avy: u64 = if v.y >= 0 {
        v.y as u64
    } else {
        (-(v.y as i64)) as u64
    };
    proof {
        assert(avx as int == abs(v.x as int));
        assert(avy as int == abs(v.y as int));
        assert(avx * avx <= 10_000_000_000_000_000 && avx * avx >= 0) by (nonlinear_arith)
            requires 0 <= avx <= 100_000_000;
        assert(avy * avy <= 10_000_000_000_000_000 && avy * avy >= 0) by (nonlinear_arith)
            requires 0 <= avy <= 100_000_000;
        assert((avx * avx + avy * avy) as int == v.x * v.x + v.y * v.y) by (nonlinear_arith)
            requires
                avx as int == abs(v.x as int),
                avy as int == abs(v.y as int);
    }
    let s: u64 = isqrt_u64(avx * avx + avy * avy);
    let adx: u64 = if d.x >= 0 {
        d.x as u64
    } else {
        (-(d.x as i64)) as u64
    };
    let ady: u64 = if d.y >= 0 {
        d.y as u64
    } else {
        (-(d.y as i64)) as u64
    };
    proof {
        assert(adx as int == abs(d.x as int));
        assert(ady as int == abs(d.y as int));
        assert(adx * adx <= 0x4000_0000_0000_0000 && adx * adx >= 0) by (nonlinear_arith)
            requires 0 <= adx <= 0x8000_0000u64;
        assert(ady * ady <= 0x4000_0000_0000_0000 && ady * ady >= 0) by (nonlinear_arith)
            requires 0 <= ady <= 0x8000_0000u64;
        assert((adx * adx + ady * ady) as int == d.x * d.x + d.y * d.y) by (nonlinear_arith)
            requires
                adx as int == abs(d.x as int),
                ady as int == abs(d.y as int);
    }
    let l: u64 = isqrt_u64(adx * adx + ady * ady);
    if l == 0 {
        (v.x as i64, v.y as i64)
    } else {
        proof {
            assert(s <= 150_000_000) by {
                assert(s * s <= 20_000_000_000_000_000);
                assert(150_000_000 < s ==> s * s > 20_000_000_000_000_000) by (nonlinear_arith);
            }
            assert(s * adx <= 150_000_000u64 * 0x8000_0000u64 && s * ady <= 150_000_000u64
                * 0x8000_0000u64) by (nonlinear_arith)
                requires
                    0 <= s <= 150_000_000,
                    0 <= adx <= 0x8000_0000u64,
                    0 <= ady <= 0x8000_0000u64;
        }
        let qx: u64 = s * adx / l;
        let qy: u64 = s * ady / l;
        proof {
            lemma_scaled_component_le_speed(s as int, adx as int, l as int, ((adx * adx + ady * ady) as u64) as int);
            lemma_scaled_component_le_speed(s as int, ady as int, l as int, ((adx * adx + ady * ady) as u64) as int);
        }
        let rx: i64 = if d.x >= 0 {
            qx as i64
        } else {
            -(qx as i64)
        };
        let ry: i64 = if d.y >= 0 {
            qy as i64
        } else {
            -(qy as i64)
        };
        (rx, ry)
    }
}

/// A scaled component never exceeds the speed itself: with `a <= l` (the
/// component's magnitude at most the vector's length), `s * a / l <= s`.
proof fn lemma_scaled_component_le_speed(s: int, a: int, l: int, n: int)
    requires
        0 <= s,
        0 <= a,
        0 < l,
        a * a <= n,
        l == isqrt_spec(n as nat),
    ensures
        0 <= s * a / l <= s,
{
    crate::fixed::lemma_isqrt_bounds(n as nat);
    assert(n < (l + 1) * (l + 1));
    assert(a <= l) by (nonlinear_arith)
        requires
            0 <= a,
            0 < l,
            a * a <= n,
            n < (l + 1) * (l + 1);
    assert(s * a <= s * l) by (nonlinear_arith)
        requires 0 <= s, a <= l;
    vstd::arithmetic::div_mod::lemma_div_is_ordered(s * a, s * l, l);
    vstd::arithmetic::div_mod::lemma_div_by_multiple(s, l);
    assert(s * a >= 0) by (nonlinear_arith)
        requires 0 <= s, 0 <= a;
    vstd::arithmetic::div_mod::lemma_div_pos_is_pos(s * a, l);
}

/// Bounce speed preservation, at integer precision.  Write `s` for the
/// speed before the bounce (the integer square root of the squared
/// velocity) and `l` for the length of the bounce direction `d`.  The
/// squared speed after the bounce loses at most the truncation margin
/// `4 * s` below `s * s`, and, scaled by `l * l`, never exceeds
/// `s * s * |d|^2` — so the relative error vanishes as `l` grows, and the
/// speed is preserved up to the quantization of the direction vector.
/// The one excluded input is a zero direction vector (ball center exactly
/// on paddle center), where the bounce leaves the velocity unchanged.
pub proof fn lemma_bounce_preserves_speed(v: Vec2i, d: Vec2i)
    requires
        d.x != 0 || d.y != 0,
    ensures
        ({
            let (rx, ry) = bounce_spec(v, d);
            let s = isqrt_spec((v.x * v.x + v.y * v.y) as nat) as int;
            let d2 = d.x * d.x + d.y * d.y;
            let l = isqrt_spec(d2 as nat) as int;
            &&& (rx * rx + ry * ry) * (l * l) <= (s * s) * d2
            &&& rx * rx + ry * ry >= s * s - 4 * s
        }),
{
    let v2 = v.x * v.x + v.y * v.y;
    let d2 = d.x * d.x + d.y * d.y;
    assert(v.x * v.x + v.y * v.y >= 0) by (nonlinear_arith);
    assert(d.x * d.x + d.y * d.y >= 1) by (nonlinear_arith)
        requires d.x != 0 || d.y != 0;
    let s = isqrt_spec(v2 as nat) as int;
    let l = isqrt_spec(d2 as nat) as int;
    crate::fixed::lemma_isqrt_bounds(v2 as nat);
    crate::fixed::lemma_isqrt_bounds(d2 as nat);
    assert(s >= 0 && l >= 0);
    assert(l * l <= d2 < (l + 1) * (l + 1));
    if l == 0 {
        assert(d2 < (l + 1) * (l + 1));
        assert((l + 1) * (l + 1) == 1) by (nonlinear_arith)
            requires l == 0;
        assert(false);
    }
    let a1 = abs(d.x as int) as int;
    let a2 = abs(d.y as int) as int;
    assert(a1 * a1 == d.x * d.x && a2 * a2 == d.y * d.y) by (nonlinear_arith)
        requires a1 == abs(d.x as int), a2 == abs(d.y as int);
    assert(a1 <= l) by (nonlinear_arith)
        requires 0 <= a1, 0 < l, a1 * a1 <= d2, d2 < (l + 1) * (l + 1);
    assert(a2 <= l) by (nonlinear_arith)
        requires 0 <= a2, 0 < l, a2 * a2 <= d2, d2 < (l + 1) * (l + 1);
    let q1 = (s * a1) / l;
    let q2 = (s * a2) / l;
    let (rx, ry) = bounce_spec(v, d);
    assert(rx * rx == q1 * q1 && ry * ry == q2 * q2) by (nonlinear_arith)
        requires rx == q1 || rx == -q1, ry == q2 || ry == -q2;
    assert(s * a1 >= 0 && s * a2 >= 0) by (nonlinear_arith)
        requires 0 <= s, 0 <= a1, 0 <= a2;
    let e1 = (s * a1) % l;
    let e2 = (s * a2) % l;
    vstd::arithmetic::div_mod::lemma_fundamental_div_mod(s * a1, l);
    vstd::arithmetic::div_mod::lemma_fundamental_div_mod(s * a2, l);
    vstd::arithmetic::div_mod::lemma_mod_bound(s * a1, l);
    vstd::arithmetic::div_mod::lemma_mod_bound(s * a2, l);
    assert(q1 * l == s * a1 - e1) by (nonlinear_arith)
        requires s * a1 == l * q1 + e1;
    assert(q2 * l == s * a2 - e2) by (nonlinear_arith)
        requires s * a2 == l * q2 + e2;
    // Upper bound: each truncated component is at most the exact one.
    assert(q1 >= 0 && q2 >= 0) by {
        vstd::arithmetic::div_mod::lemma_div_pos_is_pos(s * a1, l);
        vstd::arithmetic::div_mod::lemma_div_pos_is_pos(s * a2, l);
    }
    assert((q1 * q1) * (l * l) <= (s * s) * (a1 * a1)) by (nonlinear_arith)
        requires 0 <= q1 * l, q1 * l <= s * a1;
    assert((q2 * q2) * (l * l) <= (s * s) * (a2 * a2)) by (nonlinear_arith)
        requires 0 <= q2 * l, q2 * l <= s * a2;
    assert((q1 * q1 + q2 * q2) * (l * l) <= (s * s) * d2) by (nonlinear_arith)
        requires
            (q1 * q1) * (l * l) <= (s * s) * (a1 * a1),
            (q2 * q2) * (l * l) <= (s * s) * (a2 * a2),
            d2 == a1 * a1 + a2 * a2;
    // Lower bound: each truncation discards less than one length unit.
    assert((q1 * q1) * (l * l) >= (s * s) * (a1 * a1) - 2 * (s * a1) * l) by (nonlinear_arith)
        requires
            q1 * l == s * a1 - e1,
            0 <= e1 < l,
            s * a1 >= 0;
    assert((q2 * q2) * (l * l) >= (s * s) * (a2 * a2) - 2 * (s * a2) * l) by (nonlinear_arith)
        requires
            q2 * l == s * a2 - e2,
            0 <= e2 < l,
            s * a2 >= 0;
    assert((q1 * q1 + q2 * q2) * (l * l) >= (s * s) * (a1 * a1 + a2 * a2) - 2 * (s * a1) * l - 2
        * (s * a2) * l) by (nonlinear_arith)
        requires
            (q1 * q1) * (l * l) >= (s * s) * (a1 * a1) - 2 * (s * a1) * l,
            (q2 * q2) * (l * l) >= (s * s) * (a2 * a2) - 2 * (s * a2) * l;
    assert((s * s) * (a1 * a1 + a2 * a2) >= (s * s) * (l * l)) by (nonlinear_arith)
        requires
            a1 * a1 + a2 * a2 >= l * l,
            0 <= s;
    assert(2 * (s * a1) * l + 2 * (s * a2) * l <= 4 * s * (l * l)) by (nonlinear_arith)
        requires
            a1 <= l,
            a2 <= l,
            0 <= s,
            0 <= a1,
            0 <= a2,
            0 < l;
    assert((q1 * q1 + q2 * q2) * (l * l) >= (s * s - 4 * s) * (l * l)) by (nonlinear_arith)
        requires
            (q1 * q1 + q2 * q2) * (l * l) >= (s * s) * (a1 * a1 + a2 * a2) - 2 * (s * a1) * l - 2
                * (s * a2) * l,
            (s * s) * (a1 * a1 + a2 * a2) >= (s * s) * (l * l),
            2 * (s * a1) * l + 2 * (s * a2) * l <= 4 * s * (l * l);
    assert(q1 * q1 + q2 * q2 >= s * s - 4 * s) by (nonlinear_arith)
        requires
            (q1 * q1 + q2 * q2) * (l * l) >= (s * s - 4 * s) * (l * l),
            0 < l;
}

impl Ball {
    /// Well-formedness: position within the hard coordinate box, velocity
    /// within the speed cap, radius within the playfield height.
    pub open spec fn wf(self) -> bool {
        &&& -POS_LIMIT <= self.position.x <= POS_LIMIT
        &&& -POS_LIMIT <= self.position.y <= POS_LIMIT
        &&& -VEL_LIMIT <= self.velocity.x <= VEL_LIMIT
        &&& -VEL_LIMIT <= self.velocity.y <= VEL_LIMIT
        &&& 0 <= self.radius <= SCREEN_HEIGHT
    }

    /// The serve state: centered, canonical serve velocity, fixed radius.
    pub open spec fn new_spec() -> Ball {
        Ball {
            position: Vec2i { x: FIELD_CENTER_X, y: FIELD_CENTER_Y },
            velocity: Vec2i { x: BALL_VELOCITY_X, y: BALL_VELOCITY_Y },
            radius: BALL_RADIUS,
        }
    }

    pub fn new() -> (b: Ball)
        ensures
            b == Ball::new_spec(),
            b.wf(),
    {
        Ball {
            position: Vec2i { x: FIELD_CENTER_X, y: FIELD_CENTER_Y },
            velocity: Vec2i { x: BALL_VELOCITY_X, y: BALL_VELOCITY_Y },
            radius: BALL_RADIUS,
        }
    }

    /// The tick's collision scan, in strict priority order: top wall,
    /// bottom wall, left wall, right wall, first paddle, second paddle.
    /// The first test that fires wins; at most one collision per tick.
    pub open spec fn check_collisions_spec(self, p0: Paddle, p1: Paddle) -> Option<
        CollisionResult,
    >
        recommends
            self.wf(),
            p0.wf(),
            p1.wf(),
    {
        if self.position.y - self.radius <= 0 {
            Option::Some(CollisionResult::Top)
        } else if self.position.y + self.radius >= SCREEN_HEIGHT {
            Option::Some(CollisionResult::Bottom)
        } else if self.position.x - self.radius <= 0 {
            Option::Some(CollisionResult::Left)
        } else if self.position.x + self.radius >= SCREEN_WIDTH {
            Option::Some(CollisionResult::Right)
        } else {
            match p0.check_collision_spec(self) {
                Option::Some(d) => Option::Some(CollisionResult::Paddle(d)),
                Option::None => match p1.check_collision_spec(self) {
                    Option::Some(d) => Option::Some(CollisionResult::Paddle(d)),
                    Option::None => Option::None,
                },
            }
        }
    }

    /// Scans for this tick's collision.
    pub fn check_collisions(&self, paddles: &[Paddle; 2]) -> (r: Option<CollisionResult>)
        requires
            self.wf(),
            paddles[0].wf(),
            paddles[1].wf(),
        ensures
            r == self.check_collisions_spec(paddles[0], paddles[1]),
    {
        if self.position.y - self.radius <= 0 {
            return Some(CollisionResult::Top);
        } else if self.position.y + self.radius >= SCREEN_HEIGHT {
            return Some(CollisionResult::Bottom);
        }
        if self.position.x - self.radius <= 0 {
            return Some(CollisionResult::Left);
        } else if self.position.x + self.radius >= SCREEN_WIDTH {
            return Some(CollisionResult::Right);
        }
        match paddles[0].check_collision_against_ball(self) {
            Some(d) => Some(CollisionResult::Paddle(d)),
            None => match paddles[1].check_collision_against_ball(self) {
                Some(d) => Some(CollisionResult::Paddle(d)),
                None => None,
            },
        }
    }

    /// The ball after one tick: the collision response changes the
    /// velocity (walls reflect, scoring resets to the serve state, paddle
    /// hits bounce), any collision then speeds the ball up by 5%, and the
    /// position finally integrates one tick of the *new* velocity
    /// (semi-implicit Euler), clamped into the hard coordinate box.
    pub open spec fn update_spec(self, p0: Paddle, p1: Paddle) -> Ball
        recommends
            self.wf(),
            p0.wf(),
            p1.wf(),
    {
        let col = self.check_collisions_spec(p0, p1);
        let after = match col {
            Option::None => self,
            Option::Some(CollisionResult::Top) | Option::Some(CollisionResult::Bottom) => Ball {
                position: self.position,
                velocity: Vec2i {
                    x: speed_up_spec(self.velocity.x as int) as i32,
                    y: speed_up_spec(-(self.velocity.y as int)) as i32,
                },
                radius: self.radius,
            },
            Option::Some(CollisionResult::Left) => Ball {
                position: Vec2i { x: FIELD_CENTER_X, y: FIELD_CENTER_Y },
                velocity: Vec2i {
                    x: speed_up_spec(BALL_VELOCITY_X as int) as i32,
                    y: speed_up_spec(BALL_VELOCITY_Y as int) as i32,
                },
                radius: BALL_RADIUS,
            },
            Option::Some(CollisionResult::Right) => Ball {
                position: Vec2i { x: FIELD_CENTER_X, y: FIELD_CENTER_Y },
                velocity: Vec2i {
                    x: speed_up_spec(-BALL_VELOCITY_X as int) as i32,
                    y: speed_up_spec(-BALL_VELOCITY_Y as int) as i32,
                },
                radius: BALL_RADIUS,
            },
            Option::Some(CollisionResult::Paddle(d)) => {
                let (bx, by) = bounce_spec(self.velocity, d);
                Ball {
                    position: self.position,
                    velocity: Vec2i {
                        x: speed_up_spec(bx) as i32,
                        y: speed_up_spec(by) as i32,
                    },
                    radius: self.radius,
                }
            },
        };
        Ball {
            position: Vec2i {
                x: clamp_spec(
                    after.position.x + after.velocity.x,
                    -POS_LIMIT as int,
                    POS_LIMIT as int,
                ) as i32,
                y: clamp_spec(
                    after.position.y + after.velocity.y,
                    -POS_LIMIT as int,
                    POS_LIMIT as int,
                ) as i32,
            },
            velocity: after.velocity,
            radius: after.radius,
        }
    }

    /// Which player scored this tick: the left wall scores for player 1,
    /// the right wall for player 0, nothing else scores.
    pub open spec fn score_spec(self, p0: Paddle, p1: Paddle) -> Option<usize> {
        match self.check_collisions_spec(p0, p1) {
            Option::Some(CollisionResult::Left) => Option::Some(1usize),
            Option::Some(CollisionResult::Right) => Option::Some(0usize),
            _ => Option::None,
        }
    }

    /// Advances the ball by one tick against the given paddles, returning
    /// the index of the player who scored, if any.
    pub fn update(&mut self, paddles: &[Paddle; 2]) -> (score: Option<usize>)
        requires
            old(self).wf(),
            paddles[0].wf(),
            paddles[1].wf(),
        ensures
            *final(self) == old(self).update_spec(paddles[0], paddles[1]),
            final(self).wf(),
            score == old(self).score_spec(paddles[0], paddles[1]),
    {
        let col = self.check_collisions(paddles);
        let mut score: Option<usize> = None;
        match col {
            Option::None => {},
            Option::Some(CollisionResult::Top) | Option::Some(CollisionResult::Bottom) => {
                let nvx: i32 = speed_up(self.velocity.x as i64);
                let nvy: i32 = speed_up(-(self.velocity.y as i64));
                self.velocity = Vec2i { x: nvx, y: nvy };
            },
            Option::Some(CollisionResult::Left) => {
                *self = Ball::new();
                let nvx: i32 = speed_up(self.velocity.x as i64);
                let nvy: i32 = speed_up(self.velocity.y as i64);
                self.velocity = Vec2i { x: nvx, y: nvy };
                score = Some(1);
            },
            Option::Some(CollisionResult::Right) => {
                *self = Ball::new();
                let nvx: i32 = speed_up(-(self.velocity.x as i64));
                let nvy: i32 = speed_up(-(self.velocity.y as i64));
                self.velocity = Vec2i { x: nvx, y: nvy };
                score = Some(0);
            },
            Option::Some(CollisionResult::Paddle(d)) => {
                let (bx, by) = paddle_bounce(self.velocity, d);
                let nvx: i32 = speed_up(bx);
                let nvy: i32 = speed_up(by);
                self.velocity = Vec2i { x: nvx, y: nvy };
            },
        }
        let px: i32 = clamp_i64_to_i32(
            self.position.x as i64 + self.velocity.x as i64,
            -POS_LIMIT,
            POS_LIMIT,
        );
        let py: i32 = clamp_i64_to_i32(
            self.position.y as i64 + self.velocity.y as i64,
            -POS_LIMIT,
            POS_LIMIT,
        );
        self.position = Vec2i { x: px, y: py };
        score
    }

    /// The display-only blend of two ball states: continuous fields
    /// (position, velocity, radius) interpolated componentwise.
    pub open spec fn blend_spec(self, previous: Ball, alpha: int) -> Ball {
        Ball {
            position: Vec2i {
                x: crate::blend::lerp_spec(
                    self.position.x as int,
                    previous.position.x as int,
                    alpha,
                ) as i32,
                y: crate::blend::lerp_spec(
                    self.position.y as int,
                    previous.position.y as int,
                    alpha,
                ) as i32,
            },
            velocity: Vec2i {
                x: crate::blend::lerp_spec(
                    self.velocity.x as int,
                    previous.velocity.x as int,
                    alpha,
                ) as i32,
                y: crate::blend::lerp_spec(
                    self.velocity.y as int,
                    previous.velocity.y as int,
                    alpha,
                ) as i32,
            },
            radius: crate::blend::lerp_spec(self.radius as int, previous.radius as int, alpha)
                as i32,
        }
    }

    /// Blends this (current) ball with the previous tick's ball.
    pub fn blend(&self, previous: &Ball, alpha: i32) -> (b: Ball)
        requires
            self.wf(),
            previous.wf(),
            0 <= alpha <= crate::blend::BLEND_ALPHA_MAX,
        ensures
            b == self.blend_spec(*previous, alpha as int),
    {
        Ball {
            position: Vec2i {
                x: crate::blend::lerp(self.position.x, previous.position.x, alpha),
                y: crate::blend::lerp(self.position.y, previous.position.y, alpha),
            },
            velocity: Vec2i {
                x: crate::blend::lerp(self.velocity.x, previous.velocity.x, alpha),
                y: crate::blend::lerp(self.velocity.y, previous.velocity.y, alpha),
            },
            radius: crate::blend::lerp(self.radius, previous.radius, alpha),
        }
    }
}

} // verus!
