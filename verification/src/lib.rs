//! Deterministic fixed-timestep core of a two-player paddle-and-ball game,
//! built to run under an external rollback scheduler.
//!
//! All continuous quantities (positions, sizes, velocities) are fixed-point
//! integers measured in milliunits (1/1000 of a playfield unit), and
//! velocities are measured in milliunits per simulation tick.  Integer
//! arithmetic keeps every tick bit-for-bit reproducible across peers, which
//! is what rollback re-simulation requires.

use vstd::prelude::*;

pub mod ball;
pub mod fixed;
pub mod blend;
pub mod collision_result;
pub mod controller;
pub mod driver;
pub mod game;
pub mod paddle;
pub mod snapshot;

verus! {

/// Milliunits in one playfield unit.
pub const UNIT: i32 = 1000;

/// Playfield width in milliunits.
pub const SCREEN_WIDTH: i32 = 800 * UNIT;

/// Playfield height in milliunits.
pub const SCREEN_HEIGHT: i32 = 600 * UNIT;

/// Everything that can go wrong while serving the rollback scheduler.
///
/// Both variants are fatal for the session: they mean the scheduler and the
/// simulation disagree, which cannot be repaired locally.
#[derive(Clone, Copy, Debug, PartialEq, Eq, Structural)]
pub enum GameError {
    /// A save was requested for a frame other than the current one.
    FrameMismatch,
    /// Raw input bytes or a snapshot buffer failed to decode.
    DecodeError,
}

} // verus!
