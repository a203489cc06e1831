//! The fixed-step driver: decouples wall-clock rendering from the fixed
//! simulation tick.
//!
//! Real elapsed time accumulates; each render frame consumes as many
//! whole ticks as the accumulator holds and keeps the remainder (never
//! resetting it to zero), then reports a blend weight for interpolating
//! between the two most recent simulation states.  When the local peer
//! runs ahead of the remote one, the tick is deliberately stretched by a
//! tenth — a voluntary pacing throttle, not a skipped frame — so the two
//! peers' clocks converge without stutter.

use vstd::prelude::*;

use crate::blend::{BLEND_ALPHA_MAX, BLEND_ONE};

verus! {

/// Fixed simulation rate.
pub const TICKS_PER_SECOND: u64 = 60;

/// One plain tick, in microseconds.
pub const TICK_MICROS: u64 = 1_000_000 / TICKS_PER_SECOND;

/// One throttled tick: stretched by a tenth while running ahead.
pub const SLOW_TICK_MICROS: u64 = TICK_MICROS * 11 / 10;

/// The tick duration this render frame runs at.
pub open spec fn tick_for(ahead: bool) -> u64 {
    if ahead {
        SLOW_TICK_MICROS
    } else {
        TICK_MICROS
    }
}

/// The accumulator after new elapsed time arrives, saturating at the
/// 64-bit limit (an elapsed time that large is unreachable in practice).
pub open spec fn accumulate_spec(acc: u64, elapsed: u64) -> int {
    if acc + elapsed > u64::MAX {
        u64::MAX as int
    } else {
        acc + elapsed
    }
}

/// The driver's state: real time received but not yet consumed by ticks.
pub struct FixedStepDriver {
    pub accumulator_micros: u64,
}

impl FixedStepDriver {
    /// Well-formedness: the leftover never reaches a whole (possibly
    /// throttled) tick.
    pub open spec fn wf(self) -> bool {
        self.accumulator_micros < SLOW_TICK_MICROS
    }

    pub fn new() -> (d: FixedStepDriver)
        ensures
            d.accumulator_micros == 0,
            d.wf(),
    {
        FixedStepDriver { accumulator_micros: 0 }
    }

    /// Consumes one render frame's elapsed time: adds it to the
    /// accumulator and hands back how many whole simulation ticks to run,
    /// keeping the remainder for interpolation.
    pub fn begin_frame(&mut self, elapsed_micros: u64, ahead: bool) -> (ticks: u64)
        ensures
            ticks == accumulate_spec(old(self).accumulator_micros, elapsed_micros) / (tick_for(
                ahead,
            ) as int),
            final(self).accumulator_micros == accumulate_spec(
                old(self).accumulator_micros,
                elapsed_micros,
            ) % (tick_for(ahead) as int),
            final(self).wf(),
    {
        let total: u64 = if elapsed_micros > u64::MAX - self.accumulator_micros {
            u64::MAX
        } else {
            self.accumulator_micros + elapsed_micros
        };
        let tick: u64 = if ahead {
            SLOW_TICK_MICROS
        } else {
            TICK_MICROS
        };
        let ticks: u64 = total / tick;
        self.accumulator_micros = total % tick;
        ticks
    }

    /// The blend weight for this render frame: how far the leftover time
    /// reaches into the next plain tick, in milli-fractions.  It can
    /// slightly exceed one tick right after a throttled frame.
    pub fn alpha(&self) -> (a: i32)
        requires
            self.wf(),
        ensures
            a == self.accumulator_micros * (BLEND_ONE as int) / (TICK_MICROS as int),
            0 <= a <= BLEND_ALPHA_MAX,
    {
        let scaled: u64 = self.accumulator_micros * 1000;
        let a: u64 = scaled / TICK_MICROS;
        proof {
            vstd::arithmetic::div_mod::lemma_div_is_ordered(
                scaled as int,
                18_331_000,
                TICK_MICROS as int,
            );
            assert(18_331_000int / 16666 == 1099) by (nonlinear_arith);
        }
        a as i32
    }
}

} // verus!
