//! The 2D point/vector value type used throughout the simulation.

use vstd::prelude::*;

verus! {

/// Largest magnitude a world coordinate may have, in fixed-point sub-units.
/// Generous enough that the playfield (a few hundred units) never comes close;
/// it exists so that coordinate differences and squares fit the machine types.
pub const COORD_LIMIT: i64 = 1_000_000_000_000_000;

/// A 2D point or vector, components in fixed-point sub-units.
#[derive(Clone, Copy, Debug, PartialEq, Eq, Structural)]
pub struct Vec2D {
    pub x: i64,
    pub y: i64,
}

/// Both components within the coordinate range the simulation works in.
pub open spec fn in_coord_range(v: Vec2D) -> bool {
    -COORD_LIMIT <= v.x <= COORD_LIMIT && -COORD_LIMIT <= v.y <= COORD_LIMIT
}

/// The origin vector.
pub fn new() -> (v: Vec2D)
    ensures
        v == (Vec2D { x: 0, y: 0 }),
{
    Vec2D { x: 0, y: 0 }
}

} // verus!
