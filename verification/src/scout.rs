//! The scout: a fast character under mission control. It flies to a target,
//! then returns to a snapshot of the player's position, relaying any enemy
//! sighting made on the way.

use vstd::prelude::*;
use crate::vec2d::{Vec2D, in_coord_range};
use crate::character::{
    self, Character, char_wf, in_update_range, default_character, has_reached_spec,
    update_position_spec, set_target_spec, rest_spec, discover_spec, set_visible_spec,
    set_position_spec, DT_LIMIT,
};

verus! {

/// The speed cap of a scout (75 units per second), in sub-units per second.
pub const SCOUT_SPEED: i64 = 75_000;

/// Where the scout is in its mission.
#[derive(Clone, Copy, Debug, PartialEq, Eq, Structural)]
pub enum ScoutStatus {
    Idle,
    GoingToTarget,
    GoingToPlayer,
}

/// A character plus mission state: the snapshot of the player's position to
/// return to, and whether an enemy sighting is waiting to be delivered.
pub struct Scout {
    pub character: Character,
    pub player_position: Vec2D,
    pub has_enemy_position_to_deliver: bool,
    pub status: ScoutStatus,
}

/// Well-formedness: the wrapped character is well-formed and the stored
/// player snapshot stays in coordinate range.
pub open spec fn scout_wf(s: Scout) -> bool {
    char_wf(s.character) && in_coord_range(s.player_position)
}

/// The state a scout is constructed in: a default character with the scout's
/// higher speed cap, no mission, nothing to deliver.
pub open spec fn default_scout() -> Scout {
    Scout {
        character: Character { max_speed: SCOUT_SPEED, ..default_character() },
        player_position: Vec2D { x: 0, y: 0 },
        has_enemy_position_to_deliver: false,
        status: ScoutStatus::Idle,
    }
}

/// One per-tick step of the scout on its own: advance the wrapped character;
/// on reaching the outbound target, reroute to the player snapshot; on
/// reaching the snapshot, stop the character (the mission status is cleared
/// by the orchestrator once the live player is actually touched).
pub open spec fn scout_update_spec(s: Scout, dt: int) -> Scout {
    let c = update_position_spec(s.character, dt);
    if has_reached_spec(c) {
        match s.status {
            ScoutStatus::GoingToTarget => Scout {
                character: set_target_spec(c, s.player_position),
                status: ScoutStatus::GoingToPlayer,
                ..s
            },
            ScoutStatus::GoingToPlayer => Scout { character: rest_spec(c), ..s },
            ScoutStatus::Idle => Scout { character: c, ..s },
        }
    } else {
        Scout { character: c, ..s }
    }
}

/// Starting a mission: snapshot the player's position and head for the
/// target.
pub open spec fn set_mission_spec(s: Scout, target_position: Vec2D, player_position: Vec2D) -> Scout {
    Scout {
        player_position: player_position,
        character: set_target_spec(s.character, target_position),
        ..s
    }
}

/// Sighting the enemy: remember where it is, mark the sighting for delivery,
/// and beeline back toward the player snapshot whatever the current leg.
pub open spec fn scout_discover_spec(s: Scout, enemy_position: Vec2D) -> Scout {
    Scout {
        character: set_target_spec(discover_spec(s.character, enemy_position), s.player_position),
        has_enemy_position_to_deliver: true,
        ..s
    }
}

/// Standing down: mission status idle, character stopped.
pub open spec fn set_idle_spec(s: Scout) -> Scout {
    Scout { status: ScoutStatus::Idle, character: rest_spec(s.character), ..s }
}

impl Scout {
    /// A scout in its starting state: a default character with the scout's
    /// higher speed cap, no mission, nothing to deliver.
    pub fn new() -> (s: Scout)
        ensures
            s == default_scout(),
            scout_wf(s),
    {
        let mut new_scout = Scout {
            character: character::new(),
            player_position: Vec2D { x: 0, y: 0 },
            has_enemy_position_to_deliver: false,
            status: ScoutStatus::Idle,
        };
        new_scout.character.max_speed = SCOUT_SPEED;
        new_scout
    }

    /// One per-tick step of the scout on its own (see `scout_update_spec`).
    pub fn update(&mut self, dt: i64)
        requires
            scout_wf(*old(self)),
            0 <= dt <= DT_LIMIT,
            in_update_range(old(self).character.position),
        ensures
            *final(self) == scout_update_spec(*old(self), dt as int),
            scout_wf(*final(self)),
    {
        let ghost s0 = *old(self);
        self.character.update_position(dt);
        if self.character.has_reached_target() {
            match self.status {
                ScoutStatus::GoingToTarget => {
                    let destination = self.player_position;
                    self.character.set_target(&destination);
                    self.status = ScoutStatus::GoingToPlayer;
                },
                ScoutStatus::GoingToPlayer => {
                    self.character.rest();
                },
                ScoutStatus::Idle => {},
            }
        }
        assert(*self == scout_update_spec(s0, dt as int));
    }

    /// Start a mission: snapshot the player's position and head for the
    /// target. The idle check is the orchestrator's.
    pub fn set_mission(&mut self, target_position: &Vec2D, player_position: &Vec2D)
        requires
            scout_wf(*old(self)),
            in_coord_range(*target_position),
            in_coord_range(*player_position),
        ensures
            *final(self) == set_mission_spec(*old(self), *target_position, *player_position),
            scout_wf(*final(self)),
    {
        self.player_position = *player_position;
        self.character.set_target(target_position);
    }

    /// Redirect the wrapped character (used to re-sync on the live player).
    pub fn set_target(&mut self, target_position: &Vec2D)
        requires
            scout_wf(*old(self)),
            in_coord_range(*target_position),
        ensures
            *final(self) == (Scout {
                character: set_target_spec(old(self).character, *target_position),
                ..*old(self)
            }),
            scout_wf(*final(self)),
    {
        self.character.set_target(target_position);
    }

    pub fn get_position(&self) -> (p: &Vec2D)
        ensures
            *p == self.character.position,
    {
        self.character.get_position()
    }

    /// Teleport the scout (used when a mission starts at the player).
    pub fn set_position(&mut self, position: &Vec2D)
        requires
            scout_wf(*old(self)),
            in_coord_range(*position),
        ensures
            *final(self) == (Scout {
                character: set_position_spec(old(self).character, *position),
                ..*old(self)
            }),
            scout_wf(*final(self)),
    {
        self.character.set_position(position);
    }

    /// Stand down: mission status idle, character stopped.
    pub fn set_idle(&mut self)
        ensures
            *final(self) == set_idle_spec(*old(self)),
            scout_wf(*old(self)) ==> scout_wf(*final(self)),
    {
        self.status = ScoutStatus::Idle;
        self.character.rest();
    }

    /// Set the transient per-tick visibility flag.
    pub fn set_visible(&mut self, visible: bool)
        ensures
            *final(self) == (Scout {
                character: set_visible_spec(old(self).character, visible),
                ..*old(self)
            }),
            scout_wf(*old(self)) ==> scout_wf(*final(self)),
    {
        self.character.set_visible(visible);
    }

    pub fn is_visible(&self) -> (r: bool)
        ensures
            r == self.character.is_visible,
    {
        self.character.is_visible()
    }

    /// Sight the enemy: remember its position, mark it for delivery, and
    /// beeline back toward the player snapshot.
    pub fn discover_enemy(&mut self, enemy_position: &Vec2D)
        requires
            scout_wf(*old(self)),
            in_coord_range(*enemy_position),
        ensures
            *final(self) == scout_discover_spec(*old(self), *enemy_position),
            scout_wf(*final(self)),
    {
        self.character.discover_enemy(enemy_position);
        self.has_enemy_position_to_deliver = true;
        let destination = self.player_position;
        self.character.set_target(&destination);
    }

    pub fn has_enemy_position_to_deliver(&self) -> (r: bool)
        ensures
            r == self.has_enemy_position_to_deliver,
    {
        self.has_enemy_position_to_deliver
    }

    /// Hand over the remembered enemy position; the pending delivery is
    /// consumed.
    pub fn deliver_enemy_position(&mut self) -> (enemy_position: Vec2D)
        ensures
            enemy_position == old(self).character.known_enemy_position,
            *final(self) == (Scout { has_enemy_position_to_deliver: false, ..*old(self) }),
            scout_wf(*old(self)) ==> scout_wf(*final(self)),
    {
        self.has_enemy_position_to_deliver = false;
        *self.character.get_known_enemy_position()
    }

    pub fn get_status(&self) -> (s: &ScoutStatus)
        ensures
            *s == self.status,
    {
        &self.status
    }

    /// Force the mission status (the orchestrator drives the transitions).
    pub fn set_status(&mut self, status: ScoutStatus)
        ensures
            *final(self) == (Scout { status: status, ..*old(self) }),
            scout_wf(*old(self)) ==> scout_wf(*final(self)),
    {
        self.status = status;
    }
}

} // verus!
