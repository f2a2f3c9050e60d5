//! The enemy decision policy: an idle, healthy enemy wanders to a fresh
//! random point inside a bounded square around the origin. The policy is a
//! function over the character's state and the drawn point, so everything but
//! the draw itself is verified.

use vstd::prelude::*;
use rand::RngExt;
use crate::vec2d::{Vec2D, in_coord_range};
use crate::character::{Character, CharacterStatus, char_wf, set_target_spec};

verus! {

/// Half-side of the square the enemy wanders in (500 units), in sub-units.
pub const WANDER_LIMIT: i64 = 500_000;
/// An enemy only wanders while its health is above this (90 units), in
/// sub-units.
pub const WANDER_HEALTH_MIN: i64 = 90_000;

/// Inside the square wander targets are drawn from.
pub open spec fn in_wander_square(v: Vec2D) -> bool {
    -WANDER_LIMIT <= v.x <= WANDER_LIMIT && -WANDER_LIMIT <= v.y <= WANDER_LIMIT
}

/// Relies on rand's `RngExt::random_range` on the thread-local generator: a
/// uniformly distributed value within the given (non-empty) inclusive range.
#[verifier::external_body]
pub(crate) fn random_in_range(low: i64, high: i64) -> (r: i64)
    requires
        low <= high,
    ensures
        low <= r <= high,
{
    rand::rng().random_range(low..=high)
}

/// A fresh point drawn uniformly from the wander square.
pub fn random_wander_point() -> (p: Vec2D)
    ensures
        in_wander_square(p),
        in_coord_range(p),
{
    Vec2D {
        x: random_in_range(-WANDER_LIMIT, WANDER_LIMIT),
        y: random_in_range(-WANDER_LIMIT, WANDER_LIMIT),
    }
}

/// What the wander policy does to an enemy character once a candidate point
/// is drawn: an idle enemy above the health threshold heads for the point;
/// any other enemy is left alone.
pub open spec fn wander_policy_spec(c: Character, wander_point: Vec2D) -> Character {
    if c.status == CharacterStatus::Idle && c.health > WANDER_HEALTH_MIN {
        set_target_spec(c, wander_point)
    } else {
        c
    }
}

/// Apply the wander policy with the given candidate point.
pub fn wander_policy(enemy: &mut Character, wander_point: Vec2D)
    requires
        char_wf(*old(enemy)),
        in_coord_range(wander_point),
    ensures
        *final(enemy) == wander_policy_spec(*old(enemy), wander_point),
        char_wf(*final(enemy)),
{
    let idle = match enemy.status {
        CharacterStatus::Idle => true,
        CharacterStatus::Moving | CharacterStatus::Fighting => false,
    };
    if idle && enemy.health > WANDER_HEALTH_MIN {
        enemy.set_target(&wander_point);
    }
}

} // verus!
