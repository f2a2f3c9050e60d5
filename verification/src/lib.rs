//! A small real-time 2D tactical simulation: a player, an AI-driven enemy and
//! a player-dispatched scout move on a plane, with visibility-gated fog of
//! war, enemy discovery and memory, and melee combat with health depletion.
//!
//! All world quantities (coordinates, speeds, health, time deltas) are held
//! in fixed-point form: an `i64` counting thousandths of a world unit, so the
//! whole simulation is exact integer arithmetic with verified contracts.

pub mod character;
pub mod collision;
pub mod enemy;
pub mod fixmath;
pub mod game;
pub mod scout;
pub mod vec2d;

use vstd::prelude::*;

verus! {

/// Number of fixed-point sub-units in one world unit. A world coordinate of
/// `1.5` units is stored as `1_500`.
pub const SCALE: i64 = 1000;

} // verus!
