//! Radius-based proximity queries.
//!
//! The test is axis-aligned: two positions "collide" at radius `r` when the
//! components differ by less than `r` on each axis independently (a square,
//! not a Euclidean circle). Gameplay depends on this exact shape.

use vstd::prelude::*;
use crate::vec2d::{Vec2D, in_coord_range};

verus! {

/// Radius at which two entities touch (hand-over range), in sub-units.
pub const TOUCH_RADIUS: i64 = 10_000;
/// Radius at which one entity sees another, in sub-units.
pub const VIEW_RADIUS: i64 = 200_000;
/// Radius at which two combatants exchange damage, in sub-units.
pub const FIGHT_RADIUS: i64 = 100_000;

/// The named proximity categories the simulation asks about.
pub enum CollisionType {
    Touch,
    View,
    Fight,
}

/// The radius a proximity category stands for.
pub open spec fn radius_of(collision_type: CollisionType) -> int {
    match collision_type {
        CollisionType::Touch => TOUCH_RADIUS as int,
        CollisionType::View => VIEW_RADIUS as int,
        CollisionType::Fight => FIGHT_RADIUS as int,
    }
}

/// Distance between two scalars: `|a - b|`.
pub open spec fn dist(a: int, b: int) -> int {
    if a >= b {
        a - b
    } else {
        b - a
    }
}

/// The axis-aligned square proximity test at radius `radius`.
pub open spec fn within_radius(a: Vec2D, b: Vec2D, radius: int) -> bool {
    dist(a.x as int, b.x as int) < radius && dist(a.y as int, b.y as int) < radius
}

/// True iff the two positions differ by less than the category's radius on
/// both axes.
pub fn are_positions_colliding(
    position1: &Vec2D,
    position2: &Vec2D,
    collision_type: CollisionType,
) -> (r: bool)
    requires
        in_coord_range(*position1),
        in_coord_range(*position2),
    ensures
        r == within_radius(*position1, *position2, radius_of(collision_type)),
{
    let radius: i64 = match collision_type {
        CollisionType::Touch => TOUCH_RADIUS,
        CollisionType::View => VIEW_RADIUS,
        CollisionType::Fight => FIGHT_RADIUS,
    };
    let dx: i64 = if position1.x >= position2.x {
        position1.x - position2.x
    } else {
        position2.x - position1.x
    };
    let dy: i64 = if position1.y >= position2.y {
        position1.y - position2.y
    } else {
        position2.y - position1.y
    };
    dx < radius && dy < radius
}

} // verus!
