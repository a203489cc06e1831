//! The outcome of one tick's collision scan.

use vstd::prelude::*;

use crate::fixed::Vec2i;

verus! {

/// The side the ball collided against this tick, if any.  At most one
/// collision is processed per tick, picked in a fixed priority order, so
/// resolution stays deterministic even in a screen corner.
#[derive(Clone, Copy, Debug, PartialEq, Eq, Structural)]
pub enum CollisionResult {
    Top,
    Bottom,
    Left,
    Right,
    /// A paddle hit, carrying the vector from the paddle's center to the
    /// ball's center.  Deliberately not the contact-point vector: bouncing
    /// along this direction gives a smooth angle gradient across the
    /// paddle face, steeper toward the edges.
    Paddle(Vec2i),
}

} // verus!
