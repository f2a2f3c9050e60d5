//! The per-entity simulation unit: position, velocity, target, status,
//! health, visibility and discovered-enemy memory, with its own movement
//! integration and status transitions.
//!
//! Every mutating method is specified against a spec-level transition
//! function, so the whole entity state machine has an exact mathematical
//! model.

use vstd::prelude::*;
use crate::vec2d::{Vec2D, COORD_LIMIT, in_coord_range};
use crate::collision::{self, CollisionType, VIEW_RADIUS, TOUCH_RADIUS, within_radius, dist};
use crate::fixmath::{
    is_sqrt_floor, sqrt_floor, scaled, isqrt, scale_step, lemma_sqrt_floor_eq,
    lemma_sqrt_floor_exists, lemma_div_le, lemma_scaled_bound,
};

verus! {

/// Health is clamped to `[0, HEALTH_MAX]` (100 units), in sub-units.
pub const HEALTH_MAX: i64 = 100_000;
/// Cap a freshly constructed character moves at (50 units per second), in
/// sub-units per second.
pub const DEFAULT_MAX_SPEED: i64 = 50_000;
/// Largest per-instance speed cap the simulation admits, in sub-units per
/// second. Far above any configured speed; it bounds the movement arithmetic.
pub const MAX_SPEED_LIMIT: i64 = 1_000_000;
/// Largest time delta a single update accepts, in time sub-units (one
/// million seconds). A machine bound, not a gameplay rule.
pub const DT_LIMIT: i64 = 1_000_000_000;
/// Largest distance one update can cover on an axis, in sub-units.
pub const STEP_LIMIT: i64 = 1_000_000_000_000;
/// Positions within this bound can take one more movement step without
/// leaving the coordinate range.
pub const POS_UPDATE_LIMIT: i64 = COORD_LIMIT - STEP_LIMIT;

/// What a character is currently doing; drives health drift and AI triggers.
#[derive(Clone, Copy, Debug, PartialEq, Eq, Structural)]
pub enum CharacterStatus {
    Idle,
    Moving,
    Fighting,
}

/// A mobile, combat-capable entity (player, enemy, or the unit inside the
/// scout).
pub struct Character {
    pub position: Vec2D,
    pub speed: Vec2D,
    pub target_position: Vec2D,
    pub max_speed: i64,
    pub is_visible: bool,
    pub known_enemy_position: Vec2D,
    pub has_discovered_enemy: bool,
    pub health: i64,
    pub status: CharacterStatus,
}

/// Well-formedness: health clamped, speed within the per-instance cap, a
/// character that is not moving has zero velocity, and every stored
/// coordinate stays in range.
pub open spec fn char_wf(c: Character) -> bool {
    &&& 0 <= c.health <= HEALTH_MAX
    &&& 0 <= c.max_speed <= MAX_SPEED_LIMIT
    &&& -c.max_speed <= c.speed.x <= c.max_speed
    &&& -c.max_speed <= c.speed.y <= c.max_speed
    &&& c.status != CharacterStatus::Moving ==> c.speed == (Vec2D { x: 0, y: 0 })
    &&& in_coord_range(c.position)
    &&& in_coord_range(c.target_position)
    &&& in_coord_range(c.known_enemy_position)
}

/// The position from which one movement step surely stays in range.
pub open spec fn in_update_range(v: Vec2D) -> bool {
    -POS_UPDATE_LIMIT <= v.x <= POS_UPDATE_LIMIT && -POS_UPDATE_LIMIT <= v.y <= POS_UPDATE_LIMIT
}

/// The state a character is constructed in: at the origin, idle, at full
/// health, with the default speed cap.
pub open spec fn default_character() -> Character {
    Character {
        position: Vec2D { x: 0, y: 0 },
        speed: Vec2D { x: 0, y: 0 },
        target_position: Vec2D { x: 0, y: 0 },
        max_speed: DEFAULT_MAX_SPEED,
        is_visible: false,
        known_enemy_position: Vec2D { x: 0, y: 0 },
        has_discovered_enemy: false,
        health: HEALTH_MAX,
        status: CharacterStatus::Idle,
    }
}

/// Health forced back into `[0, HEALTH_MAX]`.
pub open spec fn clamp_health(h: int) -> int {
    if h < 0 {
        0
    } else if h > HEALTH_MAX as int {
        HEALTH_MAX as int
    } else {
        h
    }
}

/// Stopping: status back to idle, velocity zeroed; nothing else moves.
pub open spec fn rest_spec(c: Character) -> Character {
    Character { status: CharacterStatus::Idle, speed: Vec2D { x: 0, y: 0 }, ..c }
}

/// Entering combat: stop, then force the fighting status.
pub open spec fn fight_spec(c: Character) -> Character {
    Character { status: CharacterStatus::Fighting, ..rest_spec(c) }
}

/// Taking (or, for a negative amount, recovering) health, clamped.
pub open spec fn hurt_spec(c: Character, health_loss: int) -> Character {
    Character { health: clamp_health(c.health - health_loss) as i64, ..c }
}

/// Recording an enemy sighting into memory.
pub open spec fn discover_spec(c: Character, enemy_position: Vec2D) -> Character {
    Character { known_enemy_position: enemy_position, has_discovered_enemy: true, ..c }
}

/// Setting the transient visibility flag.
pub open spec fn set_visible_spec(c: Character, visible: bool) -> Character {
    Character { is_visible: visible, ..c }
}

/// Teleporting to a position.
pub open spec fn set_position_spec(c: Character, position: Vec2D) -> Character {
    Character { position: position, ..c }
}

/// The velocity component along one axis after targeting: the axis gap `d`
/// rescaled by `max_speed / len`, rounded toward zero.
pub open spec fn axis_speed(d: int, max_speed: int, len: int) -> int {
    if d >= 0 {
        d * max_speed / len
    } else {
        -((-d) * max_speed / len)
    }
}

/// Targeting: record the destination, switch to moving, and point the
/// velocity at the destination with magnitude `max_speed` (up to integer
/// rounding). A destination equal to the current position leaves the
/// velocity at zero instead of dividing by a zero-length direction.
pub open spec fn set_target_spec(c: Character, target_position: Vec2D) -> Character {
    let dx = target_position.x - c.position.x;
    let dy = target_position.y - c.position.y;
    let len = sqrt_floor(dx * dx + dy * dy);
    let speed = if len == 0 {
        Vec2D { x: 0, y: 0 }
    } else {
        Vec2D {
            x: axis_speed(dx, c.max_speed as int, len) as i64,
            y: axis_speed(dy, c.max_speed as int, len) as i64,
        }
    };
    Character {
        status: CharacterStatus::Moving,
        target_position: target_position,
        speed: speed,
        ..c
    }
}

/// Within touching distance of the pending destination.
pub open spec fn has_reached_spec(c: Character) -> bool {
    within_radius(c.position, c.target_position, TOUCH_RADIUS as int)
}

/// Movement integration: one velocity step, rounded toward zero per axis.
pub open spec fn integrate_spec(c: Character, dt: int) -> Character {
    Character {
        position: Vec2D {
            x: (c.position.x + scaled(c.speed.x as int, dt)) as i64,
            y: (c.position.y + scaled(c.speed.y as int, dt)) as i64,
        },
        ..c
    }
}

/// Health drift: an idle character regenerates by `dt`, a moving or fighting
/// one decays by `dt`, clamped either way.
pub open spec fn drift_spec(c: Character, dt: int) -> Character {
    Character {
        health: clamp_health(
            if c.status == CharacterStatus::Idle {
                c.health + dt
            } else {
                c.health - dt
            },
        ) as i64,
        ..c
    }
}

/// Stale-memory clearing: re-approaching the remembered enemy position to
/// within view without a fresh sighting drops the memory flag.
pub open spec fn forget_spec(c: Character) -> Character {
    if within_radius(c.position, c.known_enemy_position, VIEW_RADIUS as int) {
        Character { has_discovered_enemy: false, ..c }
    } else {
        c
    }
}

/// Arrival: once within touching distance of the destination, stop.
pub open spec fn arrive_spec(c: Character) -> Character {
    if has_reached_spec(c) {
        rest_spec(c)
    } else {
        c
    }
}

/// One whole per-tick step of a character on its own: integrate, drift
/// health by status, clear stale memory on revisit, stop on arrival.
pub open spec fn update_position_spec(c: Character, dt: int) -> Character {
    arrive_spec(forget_spec(drift_spec(integrate_spec(c, dt), dt)))
}

/// A character in its starting state.
pub fn new() -> (c: Character)
    ensures
        c == default_character(),
        char_wf(c),
{
    Character {
        position: Vec2D { x: 0, y: 0 },
        speed: Vec2D { x: 0, y: 0 },
        target_position: Vec2D { x: 0, y: 0 },
        max_speed: DEFAULT_MAX_SPEED,
        is_visible: false,
        known_enemy_position: Vec2D { x: 0, y: 0 },
        has_discovered_enemy: false,
        health: HEALTH_MAX,
        status: CharacterStatus::Idle,
    }
}

impl Character {
    /// Stop: idle status, zero velocity.
    pub fn rest(&mut self)
        ensures
            *final(self) == rest_spec(*old(self)),
            char_wf(*old(self)) ==> char_wf(*final(self)),
    {
        self.status = CharacterStatus::Idle;
        self.speed.x = 0;
        self.speed.y = 0;
    }

    /// Enter combat: stop, then force the fighting status.
    pub fn fight(&mut self)
        ensures
            *final(self) == fight_spec(*old(self)),
            char_wf(*old(self)) ==> char_wf(*final(self)),
    {
        self.rest();
        self.status = CharacterStatus::Fighting;
    }

    /// Lose `health_loss` health (gain it back for a negative amount),
    /// clamped to the valid range.
    pub fn hurt(&mut self, health_loss: i64)
        ensures
            *final(self) == hurt_spec(*old(self), health_loss as int),
            char_wf(*old(self)) ==> char_wf(*final(self)),
    {
        let h: i128 = self.health as i128 - health_loss as i128;
        self.health = if h < 0 {
            0
        } else if h > HEALTH_MAX as i128 {
            HEALTH_MAX
        } else {
            h as i64
        };
    }

    /// Record an enemy sighting; the memory persists until overwritten or
    /// invalidated.
    pub fn discover_enemy(&mut self, enemy_position: &Vec2D)
        ensures
            *final(self) == discover_spec(*old(self), *enemy_position),
            char_wf(*old(self)) && in_coord_range(*enemy_position) ==> char_wf(*final(self)),
    {
        self.known_enemy_position = *enemy_position;
        self.has_discovered_enemy = true;
    }

    /// Set the transient per-tick visibility flag.
    pub fn set_visible(&mut self, visible: bool)
        ensures
            *final(self) == set_visible_spec(*old(self), visible),
            char_wf(*old(self)) ==> char_wf(*final(self)),
    {
        self.is_visible = visible;
    }

    pub fn is_visible(&self) -> (r: bool)
        ensures
            r == self.is_visible,
    {
        self.is_visible
    }

    /// Teleport to a position.
    pub fn set_position(&mut self, position: &Vec2D)
        ensures
            *final(self) == set_position_spec(*old(self), *position),
            char_wf(*old(self)) && in_coord_range(*position) ==> char_wf(*final(self)),
    {
        self.position = *position;
    }

    pub fn get_position(&self) -> (p: &Vec2D)
        ensures
            *p == self.position,
    {
        &self.position
    }

    pub fn get_target_position(&self) -> (p: &Vec2D)
        ensures
            *p == self.target_position,
    {
        &self.target_position
    }

    pub fn get_known_enemy_position(&self) -> (p: &Vec2D)
        ensures
            *p == self.known_enemy_position,
    {
        &self.known_enemy_position
    }

    pub fn has_discovered_enemy(&self) -> (r: bool)
        ensures
            r == self.has_discovered_enemy,
    {
        self.has_discovered_enemy
    }

    pub fn get_health(&self) -> (h: &i64)
        ensures
            *h == self.health,
    {
        &self.health
    }

    pub fn get_status(&self) -> (s: &CharacterStatus)
        ensures
            *s == self.status,
    {
        &self.status
    }

    /// Record the destination, switch to moving, and point the velocity at
    /// it with magnitude `max_speed` up to integer rounding. A destination
    /// equal to the current position leaves the velocity at zero.
    pub fn set_target(&mut self, target_position: &Vec2D)
        requires
            in_coord_range(old(self).position),
            in_coord_range(*target_position),
            0 <= old(self).max_speed,
        ensures
            *final(self) == set_target_spec(*old(self), *target_position),
            char_wf(*old(self)) ==> char_wf(*final(self)),
    {
        let ghost c0 = *old(self);
        self.status = CharacterStatus::Moving;
        self.target_position.x = target_position.x;
        self.target_position.y = target_position.y;

        let dx: i64 = target_position.x - self.position.x;
        let dy: i64 = target_position.y - self.position.y;
        let adx: u128 = if dx >= 0 {
            dx as u128
        } else {
            (-dx) as u128
        };
        let ady: u128 = if dy >= 0 {
            dy as u128
        } else {
            (-dy) as u128
        };
        proof {
            assert((adx as int) * (adx as int) + (ady as int) * (ady as int)
                <= 8_000_000_000_000_000_000_000_000_000_000int) by (nonlinear_arith)
                requires
                    0 <= adx as int <= 2_000_000_000_000_000,
                    0 <= ady as int <= 2_000_000_000_000_000,
            ;
        }
        let squared_length: u128 = adx * adx + ady * ady;
        let length: u128 = isqrt(squared_length);
        proof {
            assert((adx as int) * (adx as int) == (dx as int) * (dx as int)) by (nonlinear_arith)
                requires
                    adx as int == if dx as int >= 0 { dx as int } else { -(dx as int) },
            ;
            assert((ady as int) * (ady as int) == (dy as int) * (dy as int)) by (nonlinear_arith)
                requires
                    ady as int == if dy as int >= 0 { dy as int } else { -(dy as int) },
            ;
            lemma_sqrt_floor_eq(squared_length as int, length as int);
        }
        if length == 0 {
            self.speed.x = 0;
            self.speed.y = 0;
        } else {
            let max_speed: u128 = self.max_speed as u128;
            proof {
                assert((adx as int) <= (length as int)) by (nonlinear_arith)
                    requires
                        0 <= adx as int,
                        0 <= length as int,
                        (adx as int) * (adx as int) <= squared_length as int,
                        (squared_length as int) < ((length as int) + 1) * ((length as int) + 1),
                ;
                assert((ady as int) <= (length as int)) by (nonlinear_arith)
                    requires
                        0 <= ady as int,
                        0 <= length as int,
                        (ady as int) * (ady as int) <= squared_length as int,
                        (squared_length as int) < ((length as int) + 1) * ((length as int) + 1),
                ;
                assert((adx as int) * (max_speed as int)
                    <= 40_000_000_000_000_000_000_000_000_000_000_000int) by (nonlinear_arith)
                    requires
                        0 <= adx as int <= 2_000_000_000_000_000,
                        0 <= max_speed as int <= 20_000_000_000_000_000_000,
                ;
                assert((ady as int) * (max_speed as int)
                    <= 40_000_000_000_000_000_000_000_000_000_000_000int) by (nonlinear_arith)
                    requires
                        0 <= ady as int <= 2_000_000_000_000_000,
                        0 <= max_speed as int <= 20_000_000_000_000_000_000,
                ;
                lemma_div_le(adx as int, max_speed as int, length as int);
                lemma_div_le(ady as int, max_speed as int, length as int);
            }
            let sx: u128 = adx * max_speed / length;
            let sy: u128 = ady * max_speed / length;
            self.speed.x = if dx >= 0 {
                sx as i64
            } else {
                -(sx as i64)
            };
            self.speed.y = if dy >= 0 {
                sy as i64
            } else {
                -(sy as i64)
            };
        }
        proof {
            assert(*self == set_target_spec(c0, *target_position));
        }
    }

    /// One per-tick step on this character alone: integrate the position by
    /// one velocity step, drift health by status, clear stale enemy memory
    /// on revisiting it, and stop once the destination is within reach.
    pub fn update_position(&mut self, dt: i64)
        requires
            char_wf(*old(self)),
            0 <= dt <= DT_LIMIT,
            in_update_range(old(self).position),
        ensures
            *final(self) == update_position_spec(*old(self), dt as int),
            char_wf(*final(self)),
    {
        let ghost c0 = *old(self);
        proof {
            lemma_scaled_bound(c0.speed.x as int, dt as int, MAX_SPEED_LIMIT as int, DT_LIMIT as int);
            lemma_scaled_bound(c0.speed.y as int, dt as int, MAX_SPEED_LIMIT as int, DT_LIMIT as int);
        }
        let step_x: i64 = scale_step(self.speed.x, dt);
        let step_y: i64 = scale_step(self.speed.y, dt);
        self.position.x = self.position.x + step_x;
        self.position.y = self.position.y + step_y;
        assert(*self == integrate_spec(c0, dt as int));
        let ghost c1 = integrate_spec(c0, dt as int);

        let drifted: i64 = match self.status {
            CharacterStatus::Idle => self.health + dt,
            CharacterStatus::Moving | CharacterStatus::Fighting => self.health - dt,
        };
        self.health = if drifted < 0 {
            0
        } else if drifted > HEALTH_MAX {
            HEALTH_MAX
        } else {
            drifted
        };
        assert(*self == drift_spec(c1, dt as int));
        let ghost c2 = drift_spec(c1, dt as int);

        if collision::are_positions_colliding(
            &self.position,
            &self.known_enemy_position,
            CollisionType::View,
        ) {
            self.has_discovered_enemy = false;
        }
        assert(*self == forget_spec(c2));
        let ghost c3 = forget_spec(c2);

        if self.has_reached_target() {
            self.rest();
        }
        assert(*self == arrive_spec(c3));
    }

    /// Within touching distance of the pending destination.
    pub fn has_reached_target(&mut self) -> (r: bool)
        requires
            in_coord_range(old(self).position),
            in_coord_range(old(self).target_position),
        ensures
            *final(self) == *old(self),
            r == has_reached_spec(*old(self)),
    {
        collision::are_positions_colliding(
            &self.position,
            &self.target_position,
            CollisionType::Touch,
        )
    }
}

/// Targeting a destination distinct from the current position points the
/// velocity at it: componentwise, the velocity is the axis gap rescaled by
/// `max_speed` over the gap's length, so each component keeps the sign of
/// its gap, never exceeds `max_speed`, and the rounding loses less than one
/// sub-unit per axis (the exact bracket is stated below). The destination is
/// recorded and the status switches to moving.
#[verifier::rlimit(60)]
pub proof fn lemma_set_target_velocity(c: Character, p: Vec2D)
    requires
        0 <= c.max_speed,
        p != c.position,
    ensures
        ({
            let d = set_target_spec(c, p);
            let dx = p.x - c.position.x;
            let dy = p.y - c.position.y;
            let len = sqrt_floor(dx * dx + dy * dy);
            let ms = c.max_speed as int;
            &&& d.status == CharacterStatus::Moving
            &&& d.target_position == p
            &&& d.position == c.position
            &&& 1 <= len
            &&& is_sqrt_floor(dx * dx + dy * dy, len)
            &&& d.speed.x == axis_speed(dx, ms, len)
            &&& d.speed.y == axis_speed(dy, ms, len)
            &&& -ms <= d.speed.x <= ms
            &&& -ms <= d.speed.y <= ms
            &&& (dx >= 0 ==> d.speed.x >= 0) && (dx <= 0 ==> d.speed.x <= 0)
            &&& (dy >= 0 ==> d.speed.y >= 0) && (dy <= 0 ==> d.speed.y <= 0)
            &&& len * dist(d.speed.x as int, 0) <= dist(dx, 0) * ms < len * (dist(
                d.speed.x as int,
                0,
            ) + 1)
            &&& len * dist(d.speed.y as int, 0) <= dist(dy, 0) * ms < len * (dist(
                d.speed.y as int,
                0,
            ) + 1)
        }),
{
    let dx = p.x - c.position.x;
    let dy = p.y - c.position.y;
    let n = dx * dx + dy * dy;
    let ms = c.max_speed as int;
    assert(dx != 0 || dy != 0);
    assert(dx * dx >= 0 && dy * dy >= 0) by (nonlinear_arith);
    if dx != 0 {
        assert(dx * dx >= 1) by (nonlinear_arith)
            requires
                dx != 0,
        ;
    }
    if dy != 0 {
        assert(dy * dy >= 1) by (nonlinear_arith)
            requires
                dy != 0,
        ;
    }
    assert(n >= 1);
    lemma_sqrt_floor_exists(n);
    let len = sqrt_floor(n);
    if len < 1 {
        assert((len + 1) * (len + 1) == 1) by (nonlinear_arith)
            requires
                len == 0,
        ;
        assert(false);
    }
    assert(1 <= len);
    let adx = dist(dx, 0);
    let ady = dist(dy, 0);
    assert(adx * adx == dx * dx && ady * ady == dy * dy) by (nonlinear_arith)
        requires
            adx == if dx >= 0 { dx } else { -dx },
            ady == if dy >= 0 { dy } else { -dy },
    ;
    assert(adx <= len) by (nonlinear_arith)
        requires
            0 <= adx,
            0 <= len,
            adx * adx <= n,
            n < (len + 1) * (len + 1),
    ;
    assert(ady <= len) by (nonlinear_arith)
        requires
            0 <= ady,
            0 <= len,
            ady * ady <= n,
            n < (len + 1) * (len + 1),
    ;
    lemma_div_le(adx, ms, len);
    lemma_div_le(ady, ms, len);
    assert(axis_speed(dx, ms, len) == if dx >= 0 { adx * ms / len } else { -(adx * ms / len) });
    assert(axis_speed(dy, ms, len) == if dy >= 0 { ady * ms / len } else { -(ady * ms / len) });
    let qx = adx * ms / len;
    let qy = ady * ms / len;
    assert(len * qx <= adx * ms && adx * ms < len * (qx + 1)) by (nonlinear_arith)
        requires
            qx == adx * ms / len,
            1 <= len,
            0 <= adx,
            0 <= ms,
    ;
    assert(len * qy <= ady * ms && ady * ms < len * (qy + 1)) by (nonlinear_arith)
        requires
            qy == ady * ms / len,
            1 <= len,
            0 <= ady,
            0 <= ms,
    ;
}

/// Targeting the current position (a zero-length direction) leaves the
/// velocity at zero rather than producing an undefined heading.
pub proof fn lemma_set_target_zero_distance(c: Character)
    ensures
        set_target_spec(c, c.position).speed == (Vec2D { x: 0, y: 0 }),
{
    assert(is_sqrt_floor(0, 0));
    lemma_sqrt_floor_eq(0, 0);
}

/// While the velocity points at the target and one step cannot overshoot it,
/// an update never moves the position away from the target on either axis,
/// the target is kept, and arriving within reach stops the character.
pub proof fn lemma_update_approaches_target(c: Character, dt: i64)
    requires
        char_wf(c),
        0 <= dt <= DT_LIMIT,
        in_update_range(c.position),
        c.position.x <= c.target_position.x ==> c.speed.x >= 0 && c.position.x
            + scaled(c.speed.x as int, dt as int) <= c.target_position.x,
        c.position.x >= c.target_position.x ==> c.speed.x <= 0 && c.position.x
            + scaled(c.speed.x as int, dt as int) >= c.target_position.x,
        c.position.y <= c.target_position.y ==> c.speed.y >= 0 && c.position.y
            + scaled(c.speed.y as int, dt as int) <= c.target_position.y,
        c.position.y >= c.target_position.y ==> c.speed.y <= 0 && c.position.y
            + scaled(c.speed.y as int, dt as int) >= c.target_position.y,
    ensures
        ({
            let u = update_position_spec(c, dt as int);
            &&& dist(u.position.x as int, c.target_position.x as int)
                <= dist(c.position.x as int, c.target_position.x as int)
            &&& dist(u.position.y as int, c.target_position.y as int)
                <= dist(c.position.y as int, c.target_position.y as int)
            &&& u.target_position == c.target_position
            &&& has_reached_spec(integrate_spec(c, dt as int)) ==> u.status
                == CharacterStatus::Idle && u.speed == (Vec2D { x: 0, y: 0 })
        }),
{
    lemma_scaled_bound(c.speed.x as int, dt as int, MAX_SPEED_LIMIT as int, DT_LIMIT as int);
    lemma_scaled_bound(c.speed.y as int, dt as int, MAX_SPEED_LIMIT as int, DT_LIMIT as int);
}

/// A character with zero velocity stays in place under updates; in
/// particular, once it has stopped it remains stopped (and idle) absent a
/// new target.
pub proof fn lemma_stopped_stays(c: Character, dt: i64)
    requires
        char_wf(c),
        0 <= dt <= DT_LIMIT,
        in_update_range(c.position),
        c.speed == (Vec2D { x: 0, y: 0 }),
    ensures
        update_position_spec(c, dt as int).position == c.position,
        update_position_spec(c, dt as int).speed == (Vec2D { x: 0, y: 0 }),
        update_position_spec(c, dt as int).target_position == c.target_position,
        c.status == CharacterStatus::Idle ==> update_position_spec(c, dt as int).status
            == CharacterStatus::Idle,
{
    lemma_scaled_bound(0, dt as int, MAX_SPEED_LIMIT as int, DT_LIMIT as int);
    assert(scaled(0, dt as int) == 0);
}

/// Health can never leave `[0, HEALTH_MAX]`: both taking damage and the
/// per-tick drift clamp it, whatever the starting value and amounts.
pub proof fn lemma_health_clamped(c: Character, health_loss: int, dt: int)
    ensures
        0 <= hurt_spec(c, health_loss).health <= HEALTH_MAX,
        0 <= update_position_spec(c, dt).health <= HEALTH_MAX,
{
}

/// Discovered-enemy memory survives the enemy leaving view: an update never
/// changes the remembered position, and the flag stays set unless the
/// character itself comes back within view of the remembered spot without a
/// fresh sighting.
pub proof fn lemma_enemy_memory_persists(c: Character, dt: int)
    ensures
        ({
            let u = update_position_spec(c, dt);
            &&& u.known_enemy_position == c.known_enemy_position
            &&& c.has_discovered_enemy && !within_radius(
                u.position,
                c.known_enemy_position,
                VIEW_RADIUS as int,
            ) ==> u.has_discovered_enemy
        }),
{
}

} // verus!
