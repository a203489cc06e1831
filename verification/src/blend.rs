//! Componentwise linear interpolation between two simulation states.
//!
//! Rendering runs on the wall clock while the simulation runs on fixed
//! ticks, so the frame shown on screen is a blend of the two most recent
//! states.  The blend weight `alpha` is a milli-fraction: `0` shows the
//! previous state's continuous fields, `BLEND_ONE` the current state's.

use vstd::prelude::*;

use crate::fixed::{div_trunc_spec, POS_LIMIT};

verus! {

/// The blend weight meaning "exactly the current state".
pub const BLEND_ONE: i32 = 1000;

/// Largest accepted blend weight.  The pacing throttle stretches a tick by
/// up to a tenth, so the leftover time can slightly exceed one plain tick.
pub const BLEND_ALPHA_MAX: i32 = 1100;

/// The blended value: `current` weighted by `alpha`, `previous` by the
/// remainder, truncated toward zero.
pub open spec fn lerp_spec(current: int, previous: int, alpha: int) -> int {
    div_trunc_spec(current * alpha + previous * (BLEND_ONE - alpha), BLEND_ONE as int)
}

/// Interpolates one continuous field.
pub fn lerp(current: i32, previous: i32, alpha: i32) -> (r: i32)
    requires
        -POS_LIMIT <= current <= POS_LIMIT,
        -POS_LIMIT <= previous <= POS_LIMIT,
        0 <= alpha <= BLEND_ALPHA_MAX,
    ensures
        r == lerp_spec(current as int, previous as int, alpha as int),
        -2_100_000_000 <= r <= 2_100_000_000,
{
    proof {
        assert(-1_100_000_000_000 <= (current as int) * (alpha as int) <= 1_100_000_000_000)
            by (nonlinear_arith)
            requires
                -1_000_000_000 <= current as int <= 1_000_000_000,
                0 <= alpha as int <= 1100;
        assert(-1_000_000_000_000 <= (previous as int) * (1000 - alpha as int)
            <= 1_000_000_000_000) by (nonlinear_arith)
            requires
                -1_000_000_000 <= previous as int <= 1_000_000_000,
                0 <= alpha as int <= 1100;
    }
    let t1: i64 = (current as i64) * (alpha as i64);
    let t2: i64 = (previous as i64) * ((BLEND_ONE - alpha) as i64);
    let n: i64 = t1 + t2;
    let r64: i64 = if n >= 0 {
        let q: u64 = (n as u64) / 1000;
        proof {
            vstd::arithmetic::div_mod::lemma_div_is_ordered(
                n as int,
                2_100_000_000_000,
                1000,
            );
            assert(2_100_000_000_000int / 1000 == 2_100_000_000) by (nonlinear_arith);
        }
        q as i64
    } else {
        let q: u64 = ((-n) as u64) / 1000;
        proof {
            vstd::arithmetic::div_mod::lemma_div_is_ordered(
                (-n) as int,
                2_100_000_000_000,
                1000,
            );
            assert(2_100_000_000_000int / 1000 == 2_100_000_000) by (nonlinear_arith);
        }
        -(q as i64)
    };
    r64 as i32
}

/// At weight `0` the blend is the previous value; at `BLEND_ONE` it is the
/// current value, both exactly.
pub proof fn lemma_lerp_endpoints(current: int, previous: int)
    ensures
        lerp_spec(current, previous, 0) == previous,
        lerp_spec(current, previous, BLEND_ONE as int) == current,
{
    if previous >= 0 {
        vstd::arithmetic::div_mod::lemma_div_by_multiple(previous, 1000);
    } else {
        vstd::arithmetic::div_mod::lemma_div_by_multiple(-previous, 1000);
        assert((-(previous * 1000)) == (-previous) * 1000) by (nonlinear_arith);
    }
    if current >= 0 {
        vstd::arithmetic::div_mod::lemma_div_by_multiple(current, 1000);
    } else {
        vstd::arithmetic::div_mod::lemma_div_by_multiple(-current, 1000);
        assert((-(current * 1000)) == (-current) * 1000) by (nonlinear_arith);
    }
}

} // verus!
