//! The orchestrator: one player, one scout, one enemy. Each tick advances
//! all three, then resolves the pairwise interactions (scout re-sync and
//! delivery, visibility, discovery, pursuit, combat) in a fixed order. The
//! whole tick is specified by `step_spec`, a spec-level transition function
//! over the game state and the tick's random wander draw.

use vstd::prelude::*;
use crate::vec2d::{Vec2D, in_coord_range};
use crate::collision::{self, CollisionType, VIEW_RADIUS, TOUCH_RADIUS, FIGHT_RADIUS, within_radius};
use crate::character::{
    self, Character, CharacterStatus, char_wf, in_update_range, default_character,
    update_position_spec, set_target_spec, set_position_spec, set_visible_spec, rest_spec,
    fight_spec, hurt_spec, discover_spec, HEALTH_MAX, DT_LIMIT,
};
use crate::scout::{
    Scout, ScoutStatus, scout_wf, default_scout, scout_update_spec, scout_discover_spec,
    set_idle_spec, set_mission_spec,
};
use crate::enemy::{self, wander_policy_spec, in_wander_square};

verus! {

/// An enemy hurt below this health (75 units) breaks off and rests.
pub const ENEMY_REST_HEALTH: i64 = 75_000;
/// An enemy only pursues a visible player while its health is above this
/// (50 units).
pub const ENEMY_PURSUE_HEALTH: i64 = 50_000;

/// The whole simulation state.
pub struct Game {
    pub player: Character,
    pub scout: Scout,
    pub enemy: Character,
}

/// Well-formedness of the whole state: every entity is well-formed.
pub open spec fn game_wf(g: Game) -> bool {
    char_wf(g.player) && scout_wf(g.scout) && char_wf(g.enemy)
}

/// All three entities can take one more movement step without leaving the
/// coordinate range.
pub open spec fn update_ready(g: Game) -> bool {
    &&& in_update_range(g.player.position)
    &&& in_update_range(g.scout.character.position)
    &&& in_update_range(g.enemy.position)
}

/// Damage dealt over `dt` by an attacker whose remaining health is
/// `attacker_health`: twice the time delta, scaled by the attacker's health
/// fraction — a wounded combatant hits softer.
pub open spec fn damage_amount(dt: int, attacker_health: int) -> int {
    2 * dt * attacker_health / (HEALTH_MAX as int)
}

/// Phases 1 and 2 of a tick: advance all three entities by `dt` (movement
/// integration and status-driven health drift), then apply the enemy policy —
/// wander while idle and healthy, break off and rest when badly hurt.
pub open spec fn tick_entities_spec(g: Game, dt: int, wander_point: Vec2D) -> Game {
    let e = wander_policy_spec(update_position_spec(g.enemy, dt), wander_point);
    Game {
        player: update_position_spec(g.player, dt),
        scout: scout_update_spec(g.scout, dt),
        enemy: if e.health < ENEMY_REST_HEALTH {
            rest_spec(e)
        } else {
            e
        },
    }
}

/// Phase 3a: a returning scout within view of the player is re-synced onto
/// the player's live position (the snapshot it was heading for may be stale).
pub open spec fn scout_resync_spec(g: Game) -> Game {
    if within_radius(g.player.position, g.scout.character.position, VIEW_RADIUS as int)
        && g.scout.status == ScoutStatus::GoingToPlayer {
        Game {
            scout: Scout {
                character: set_target_spec(g.scout.character, g.player.position),
                ..g.scout
            },
            ..g
        }
    } else {
        g
    }
}

/// Phase 3b: a returning scout that touches the player stands down, and a
/// pending enemy sighting is delivered into the player's memory.
pub open spec fn scout_delivery_spec(g: Game) -> Game {
    if within_radius(g.player.position, g.scout.character.position, TOUCH_RADIUS as int)
        && g.scout.status == ScoutStatus::GoingToPlayer {
        if g.scout.has_enemy_position_to_deliver {
            Game {
                scout: Scout {
                    has_enemy_position_to_deliver: false,
                    ..set_idle_spec(g.scout)
                },
                player: discover_spec(g.player, g.scout.character.known_enemy_position),
                ..g
            }
        } else {
            Game { scout: set_idle_spec(g.scout), ..g }
        }
    } else {
        g
    }
}

/// Phase 4: the scout's visibility flag is recomputed from view-radius
/// proximity to the player.
pub open spec fn scout_visibility_spec(g: Game) -> Game {
    Game {
        scout: Scout {
            character: set_visible_spec(
                g.scout.character,
                within_radius(g.player.position, g.scout.character.position, VIEW_RADIUS as int),
            ),
            ..g.scout
        },
        ..g
    }
}

/// Phase 5: a scout within view of the enemy sights it and heads home with
/// the news.
pub open spec fn scout_sighting_spec(g: Game) -> Game {
    if within_radius(g.scout.character.position, g.enemy.position, VIEW_RADIUS as int) {
        Game { scout: scout_discover_spec(g.scout, g.enemy.position), ..g }
    } else {
        g
    }
}

/// Phase 6: the enemy's visibility flag is recomputed from view-radius
/// proximity to the player; a visible enemy is recorded into the player's
/// memory and, while healthy enough, pursues the player.
pub open spec fn enemy_contact_spec(g: Game) -> Game {
    let enemy_visible = within_radius(g.player.position, g.enemy.position, VIEW_RADIUS as int);
    let e = set_visible_spec(g.enemy, enemy_visible);
    let p = if enemy_visible {
        discover_spec(g.player, e.position)
    } else {
        g.player
    };
    Game {
        player: p,
        enemy: if enemy_visible && g.enemy.health > ENEMY_PURSUE_HEALTH {
            set_target_spec(e, p.position)
        } else {
            e
        },
        ..g
    }
}

/// Phase 7: combatants within fight radius enter the fighting status (the
/// player only from idle) and hurt each other by `damage_amount` of the
/// attacker's current health — the player is hurt first, so the enemy's
/// blow is scaled by the enemy's pre-blow health and the player's by the
/// player's already-reduced health.
pub open spec fn combat_spec(g: Game, dt: int) -> Game {
    if within_radius(g.player.position, g.enemy.position, FIGHT_RADIUS as int) {
        let p1 = if g.player.status == CharacterStatus::Idle {
            fight_spec(g.player)
        } else {
            g.player
        };
        let e1 = fight_spec(g.enemy);
        let p2 = hurt_spec(p1, damage_amount(dt, g.enemy.health as int));
        Game {
            player: p2,
            enemy: hurt_spec(e1, damage_amount(dt, p2.health as int)),
            ..g
        }
    } else {
        g
    }
}

/// One whole simulation tick given the tick's random wander draw: the seven
/// phases in the fixed order the orchestrator resolves them.
pub open spec fn step_spec(g: Game, dt: int, wander_point: Vec2D) -> Game {
    combat_spec(
        enemy_contact_spec(
            scout_sighting_spec(
                scout_visibility_spec(
                    scout_delivery_spec(scout_resync_spec(tick_entities_spec(g, dt, wander_point))),
                ),
            ),
        ),
        dt,
    )
}

/// Starting a scout mission: only an idle scout accepts one; it is placed at
/// the player, the player's position is snapshotted, and the scout heads out.
/// A busy scout declines silently.
pub open spec fn set_scout_mission_spec(g: Game, target_position: Vec2D) -> Game {
    if g.scout.status == ScoutStatus::Idle {
        let s1 = Scout { status: ScoutStatus::GoingToTarget, ..g.scout };
        let s2 = Scout { character: set_position_spec(s1.character, g.player.position), ..s1 };
        Game { scout: set_mission_spec(s2, target_position, g.player.position), ..g }
    } else {
        g
    }
}

impl Game {
    /// A fresh game with the enemy placed at the given position and the
    /// player and scout in their starting states at the origin.
    pub fn new_with_enemy_at(enemy_position: Vec2D) -> (g: Game)
        requires
            in_coord_range(enemy_position),
        ensures
            g.player == default_character(),
            g.scout == default_scout(),
            g.enemy == (Character { position: enemy_position, ..default_character() }),
            game_wf(g),
    {
        let mut game = Game {
            player: character::new(),
            scout: Scout::new(),
            enemy: character::new(),
        };
        game.enemy.set_position(&enemy_position);
        game
    }

    /// A fresh game with the enemy placed uniformly at random inside the
    /// wander square.
    pub fn new() -> (g: Game)
        ensures
            g.player == default_character(),
            g.scout == default_scout(),
            g.enemy == (Character { position: g.enemy.position, ..default_character() }),
            in_wander_square(g.enemy.position),
            game_wf(g),
    {
        let enemy_position = enemy::random_wander_point();
        Game::new_with_enemy_at(enemy_position)
    }

    /// One simulation tick driven by the given wander draw; deterministic,
    /// and exactly `step_spec`.
    pub fn update_with_wander(&mut self, dt: i64, wander_point: Vec2D)
        requires
            game_wf(*old(self)),
            0 <= dt <= DT_LIMIT,
            update_ready(*old(self)),
            in_coord_range(wander_point),
        ensures
            *final(self) == step_spec(*old(self), dt as int, wander_point),
            game_wf(*final(self)),
    {
        self.tick_entities(dt, wander_point);
        self.scout_resync();
        self.scout_delivery();
        self.scout_visibility();
        self.scout_sighting();
        self.enemy_contact();
        self.combat(dt);
    }

    /// Phases 1 and 2: advance all three entities, then apply the enemy
    /// policy.
    fn tick_entities(&mut self, dt: i64, wander_point: Vec2D)
        requires
            game_wf(*old(self)),
            0 <= dt <= DT_LIMIT,
            update_ready(*old(self)),
            in_coord_range(wander_point),
        ensures
            *final(self) == tick_entities_spec(*old(self), dt as int, wander_point),
            game_wf(*final(self)),
    {
        self.player.update_position(dt);
        self.scout.update(dt);
        self.enemy.update_position(dt);
        enemy::wander_policy(&mut self.enemy, wander_point);
        let enemy_health: i64 = *self.enemy.get_health();
        if enemy_health < ENEMY_REST_HEALTH {
            self.enemy.rest();
        }
    }

    /// Phase 3a: re-sync a returning scout in view onto the live player.
    fn scout_resync(&mut self)
        requires
            game_wf(*old(self)),
        ensures
            *final(self) == scout_resync_spec(*old(self)),
            game_wf(*final(self)),
    {
        let player_position: Vec2D = *self.player.get_position();
        let scout_position: Vec2D = *self.scout.get_position();
        if collision::are_positions_colliding(&player_position, &scout_position, CollisionType::View) {
            let returning = match *self.scout.get_status() {
                ScoutStatus::GoingToPlayer => true,
                ScoutStatus::Idle | ScoutStatus::GoingToTarget => false,
            };
            if returning {
                self.scout.set_target(&player_position);
            }
        }
    }

    /// Phase 3b: stand a touching returning scout down and take its
    /// delivery.
    fn scout_delivery(&mut self)
        requires
            game_wf(*old(self)),
        ensures
            *final(self) == scout_delivery_spec(*old(self)),
            game_wf(*final(self)),
    {
        let player_position: Vec2D = *self.player.get_position();
        let scout_position: Vec2D = *self.scout.get_position();
        if collision::are_positions_colliding(&player_position, &scout_position, CollisionType::Touch) {
            let returning = match *self.scout.get_status() {
                ScoutStatus::GoingToPlayer => true,
                ScoutStatus::Idle | ScoutStatus::GoingToTarget => false,
            };
            if returning {
                self.scout.set_idle();
                if self.scout.has_enemy_position_to_deliver() {
                    let enemy_position = self.scout.deliver_enemy_position();
                    self.player.discover_enemy(&enemy_position);
                }
            }
        }
    }

    /// Phase 4: recompute the scout's visibility.
    fn scout_visibility(&mut self)
        requires
            game_wf(*old(self)),
        ensures
            *final(self) == scout_visibility_spec(*old(self)),
            game_wf(*final(self)),
    {
        let player_position: Vec2D = *self.player.get_position();
        let scout_position: Vec2D = *self.scout.get_position();
        let is_scout_visible = collision::are_positions_colliding(
            &player_position,
            &scout_position,
            CollisionType::View,
        );
        self.scout.set_visible(is_scout_visible);
    }

    /// Phase 5: a scout in view of the enemy sights it.
    fn scout_sighting(&mut self)
        requires
            game_wf(*old(self)),
        ensures
            *final(self) == scout_sighting_spec(*old(self)),
            game_wf(*final(self)),
    {
        let scout_position: Vec2D = *self.scout.get_position();
        let enemy_position: Vec2D = *self.enemy.get_position();
        if collision::are_positions_colliding(&scout_position, &enemy_position, CollisionType::View) {
            self.scout.discover_enemy(&enemy_position);
        }
    }

    /// Phase 6: enemy visibility, discovery by the player, and pursuit.
    fn enemy_contact(&mut self)
        requires
            game_wf(*old(self)),
        ensures
            *final(self) == enemy_contact_spec(*old(self)),
            game_wf(*final(self)),
    {
        let player_position: Vec2D = *self.player.get_position();
        let enemy_position: Vec2D = *self.enemy.get_position();
        let enemy_health: i64 = *self.enemy.get_health();
        let is_enemy_visible = collision::are_positions_colliding(
            &player_position,
            &enemy_position,
            CollisionType::View,
        );
        self.enemy.set_visible(is_enemy_visible);
        if is_enemy_visible {
            self.player.discover_enemy(&enemy_position);
            if enemy_health > ENEMY_PURSUE_HEALTH {
                self.enemy.set_target(&player_position);
            }
        }
    }

    /// Phase 7: combat within fight radius.
    fn combat(&mut self, dt: i64)
        requires
            game_wf(*old(self)),
            0 <= dt <= DT_LIMIT,
        ensures
            *final(self) == combat_spec(*old(self), dt as int),
            game_wf(*final(self)),
    {
        let player_position: Vec2D = *self.player.get_position();
        let enemy_position: Vec2D = *self.enemy.get_position();
        let enemy_health: i64 = *self.enemy.get_health();
        if collision::are_positions_colliding(&player_position, &enemy_position, CollisionType::Fight) {
            let player_idle = match *self.player.get_status() {
                CharacterStatus::Idle => true,
                CharacterStatus::Moving | CharacterStatus::Fighting => false,
            };
            if player_idle {
                self.player.fight();
            }
            self.enemy.fight();
            proof {
                assert(2 * (dt as int) * (enemy_health as int)
                    <= 200_000_000_000_000int) by (nonlinear_arith)
                    requires
                        0 <= dt as int <= 1_000_000_000,
                        0 <= enemy_health as int <= 100_000,
                ;
            }
            let player_damage: i64 = (2 * (dt as u64) * (enemy_health as u64)
                / (HEALTH_MAX as u64)) as i64;
            self.player.hurt(player_damage);
            let player_health: i64 = *self.player.get_health();
            proof {
                assert(2 * (dt as int) * (player_health as int)
                    <= 200_000_000_000_000int) by (nonlinear_arith)
                    requires
                        0 <= dt as int <= 1_000_000_000,
                        0 <= player_health as int <= 100_000,
                ;
            }
            let enemy_damage: i64 = (2 * (dt as u64) * (player_health as u64)
                / (HEALTH_MAX as u64)) as i64;
            self.enemy.hurt(enemy_damage);
        }
    }

    /// One simulation tick: like `update_with_wander`, for a wander draw
    /// made uniformly at random inside the wander square.
    pub fn update(&mut self, dt: i64)
        requires
            game_wf(*old(self)),
            0 <= dt <= DT_LIMIT,
            update_ready(*old(self)),
        ensures
            game_wf(*final(self)),
            exists|w: Vec2D|
                #[trigger] in_wander_square(w) && *final(self) == step_spec(
                    *old(self),
                    dt as int,
                    w,
                ),
    {
        let wander_point = enemy::random_wander_point();
        self.update_with_wander(dt, wander_point);
    }

    /// Whether `update` may run: the time delta is in range and no entity
    /// sits close enough to the coordinate bound to leave it in one step.
    pub fn can_update(&self, dt: i64) -> (r: bool)
        ensures
            r == (0 <= dt <= DT_LIMIT && update_ready(*self)),
    {
        let pp = *self.player.get_position();
        let sp = *self.scout.get_position();
        let ep = *self.enemy.get_position();
        0 <= dt && dt <= character::DT_LIMIT && in_update_range_exec(pp) && in_update_range_exec(sp)
            && in_update_range_exec(ep)
    }

    pub fn get_player_position(&self) -> (p: &Vec2D)
        ensures
            *p == self.player.position,
    {
        self.player.get_position()
    }

    pub fn get_player_target_position(&self) -> (p: &Vec2D)
        ensures
            *p == self.player.target_position,
    {
        self.player.get_target_position()
    }

    pub fn get_enemy_position(&self) -> (p: &Vec2D)
        ensures
            *p == self.enemy.position,
    {
        self.enemy.get_position()
    }

    /// Send the player toward a destination.
    pub fn set_player_target(&mut self, target_position: &Vec2D)
        requires
            game_wf(*old(self)),
            in_coord_range(*target_position),
        ensures
            *final(self) == (Game {
                player: set_target_spec(old(self).player, *target_position),
                ..*old(self)
            }),
            game_wf(*final(self)),
    {
        self.player.set_target(target_position)
    }

    /// Dispatch the scout toward a destination, if it is idle; a busy scout
    /// declines silently.
    pub fn set_scout_mission(&mut self, target_position: &Vec2D)
        requires
            game_wf(*old(self)),
            in_coord_range(*target_position),
        ensures
            *final(self) == set_scout_mission_spec(*old(self), *target_position),
            game_wf(*final(self)),
    {
        let idle = match *self.scout.get_status() {
            ScoutStatus::Idle => true,
            ScoutStatus::GoingToTarget | ScoutStatus::GoingToPlayer => false,
        };
        if idle {
            let player_position = *self.player.get_position();
            self.scout.set_status(ScoutStatus::GoingToTarget);
            self.scout.set_position(&player_position);
            self.scout.set_mission(target_position, &player_position);
        }
    }

    pub fn is_enemy_visible(&self) -> (r: bool)
        ensures
            r == self.enemy.is_visible,
    {
        self.enemy.is_visible()
    }

    pub fn is_enemy_discovered(&self) -> (r: bool)
        ensures
            r == self.player.has_discovered_enemy,
    {
        self.player.has_discovered_enemy()
    }

    pub fn get_discovered_enemy_position(&self) -> (p: &Vec2D)
        ensures
            *p == self.player.known_enemy_position,
    {
        self.player.get_known_enemy_position()
    }

    pub fn get_player(&self) -> (c: &Character)
        ensures
            *c == self.player,
    {
        &self.player
    }

    pub fn get_enemy(&self) -> (c: &Character)
        ensures
            *c == self.enemy,
    {
        &self.enemy
    }

    pub fn get_scout(&self) -> (s: &Scout)
        ensures
            *s == self.scout,
    {
        &self.scout
    }

    /// The game is over exactly when one combatant's health has run out.
    pub fn is_over(&self) -> (r: bool)
        ensures
            r == (self.player.health <= 0 || self.enemy.health <= 0),
    {
        *self.player.get_health() <= 0 || *self.enemy.get_health() <= 0
    }
}

/// Both components within the per-step position bound.
fn in_update_range_exec(v: Vec2D) -> (r: bool)
    ensures
        r == in_update_range(v),
{
    -character::POS_UPDATE_LIMIT <= v.x && v.x <= character::POS_UPDATE_LIMIT
        && -character::POS_UPDATE_LIMIT <= v.y && v.y <= character::POS_UPDATE_LIMIT
}

} // verus!
