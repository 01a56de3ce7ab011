//! What one stage of a frame tells the stages after it.

use crate::components::Side;
use vstd::prelude::*;

verus! {

/// A score has reached the number of points that wins; the side is the winner.
#[derive(Clone, Copy, Debug, PartialEq, Eq, Structural)]
pub struct GameOverEvent(pub Side);

/// The ball has left the playfield; the side is the goal line it crossed.
#[derive(Clone, Copy, Debug, PartialEq, Eq, Structural)]
pub struct BallOutEvent(pub Side);

/// The ball has struck a paddle, on any of its faces.
#[derive(Clone, Copy, Debug, PartialEq, Eq, Structural)]
pub struct BallHitPaddleEvent();

} // verus!
