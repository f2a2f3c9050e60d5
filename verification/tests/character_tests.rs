use war_fog::character::{self, CharacterStatus, HEALTH_MAX, DEFAULT_MAX_SPEED};
use war_fog::vec2d::Vec2D;

#[test]
fn new_character_starts_idle_at_origin() {
    let c = character::new();
    assert_eq!(c.get_position().x, 0);
    assert_eq!(c.get_position().y, 0);
    assert_eq!(*c.get_health(), HEALTH_MAX);
    assert_eq!(*c.get_status(), CharacterStatus::Idle);
    assert!(!c.is_visible());
    assert!(!c.has_discovered_enemy());
    assert_eq!(c.max_speed, DEFAULT_MAX_SPEED);
}

#[test]
fn set_target_speed_has_max_speed_magnitude() {
    // a 3-4-5 triangle: the rescaled speed is exact, with no rounding loss
    let mut c = character::new();
    c.set_target(&Vec2D { x: 300_000, y: 400_000 });
    assert_eq!(c.speed.x, 30_000);
    assert_eq!(c.speed.y, 40_000);
    // |speed|^2 == max_speed^2 exactly here
    let sq = c.speed.x * c.speed.x + c.speed.y * c.speed.y;
    assert_eq!(sq, DEFAULT_MAX_SPEED * DEFAULT_MAX_SPEED);
    assert_eq!(*c.get_status(), CharacterStatus::Moving);
    assert_eq!(c.get_target_position().x, 300_000);
    assert_eq!(c.get_target_position().y, 400_000);
}

#[test]
fn set_target_direction_is_parallel_to_gap() {
    let mut c = character::new();
    c.set_target(&Vec2D { x: 600_000, y: 800_000 });
    // cross product of speed and gap is zero: exactly parallel on this input
    let cross = c.speed.x as i128 * 800_000i128 - c.speed.y as i128 * 600_000i128;
    assert_eq!(cross, 0);
    assert!(c.speed.x > 0 && c.speed.y > 0);
}

#[test]
fn set_target_toward_negative_keeps_signs() {
    let mut c = character::new();
    c.set_position(&Vec2D { x: 100_000, y: 0 });
    c.set_target(&Vec2D { x: 0, y: 0 });
    assert_eq!(c.speed.x, -50_000);
    assert_eq!(c.speed.y, 0);
}

#[test]
fn set_target_at_own_position_leaves_speed_zero() {
    let mut c = character::new();
    c.set_position(&Vec2D { x: 7_000, y: -3_000 });
    c.set_target(&Vec2D { x: 7_000, y: -3_000 });
    assert_eq!(c.speed.x, 0);
    assert_eq!(c.speed.y, 0);
    assert_eq!(*c.get_status(), CharacterStatus::Moving);
}

#[test]
fn update_position_integrates_and_stops_at_target() {
    let mut c = character::new();
    c.set_target(&Vec2D { x: 100_000, y: 0 });
    c.update_position(1000);
    assert_eq!(c.get_position().x, 50_000);
    assert_eq!(c.get_position().y, 0);
    assert_eq!(*c.get_status(), CharacterStatus::Moving);
    c.update_position(1000);
    assert_eq!(c.get_position().x, 100_000);
    assert_eq!(*c.get_status(), CharacterStatus::Idle);
    assert_eq!(c.speed.x, 0);
    assert_eq!(c.speed.y, 0);
    // further ticks leave it where it is
    c.update_position(1000);
    assert_eq!(c.get_position().x, 100_000);
    assert_eq!(*c.get_status(), CharacterStatus::Idle);
}

#[test]
fn update_position_approaches_target_monotonically() {
    let mut c = character::new();
    c.set_target(&Vec2D { x: 100_000, y: 50_000 });
    let mut last_gap_x = 100_000i64;
    let mut last_gap_y = 50_000i64;
    for _ in 0..40 {
        c.update_position(100);
        let gap_x = (100_000 - c.get_position().x).abs();
        let gap_y = (50_000 - c.get_position().y).abs();
        assert!(gap_x <= last_gap_x);
        assert!(gap_y <= last_gap_y);
        last_gap_x = gap_x;
        last_gap_y = gap_y;
    }
    // long since arrived and resting
    assert_eq!(*c.get_status(), CharacterStatus::Idle);
    assert_eq!(c.speed.x, 0);
    assert_eq!(c.speed.y, 0);
}

#[test]
fn health_drifts_with_status_and_is_clamped() {
    let mut c = character::new();
    // idle at full health: regeneration is clamped at the top
    c.update_position(5000);
    assert_eq!(*c.get_health(), 100_000);
    // moving: decay
    c.set_target(&Vec2D { x: 10_000_000, y: 0 });
    c.update_position(1000);
    assert_eq!(*c.get_health(), 99_000);
    // idle again: regeneration
    c.rest();
    c.update_position(400);
    assert_eq!(*c.get_health(), 99_400);
}

#[test]
fn health_stays_in_range_under_any_hurt_sequence() {
    let mut c = character::new();
    c.hurt(250_000);
    assert_eq!(*c.get_health(), 0);
    c.update_position(1000);
    assert!(*c.get_health() >= 0 && *c.get_health() <= 100_000);
    c.hurt(-30_000);
    assert_eq!(*c.get_health(), 31_000);
    c.hurt(-1_000_000);
    assert_eq!(*c.get_health(), 100_000);
    c.hurt(i64::MIN);
    assert_eq!(*c.get_health(), 100_000);
    c.hurt(i64::MAX);
    assert_eq!(*c.get_health(), 0);
}

#[test]
fn fight_stops_movement_and_sets_fighting() {
    let mut c = character::new();
    c.set_target(&Vec2D { x: 100_000, y: 0 });
    c.fight();
    assert_eq!(*c.get_status(), CharacterStatus::Fighting);
    assert_eq!(c.speed.x, 0);
    assert_eq!(c.speed.y, 0);
    // idempotent
    c.fight();
    assert_eq!(*c.get_status(), CharacterStatus::Fighting);
}

#[test]
fn distant_enemy_memory_persists_across_updates() {
    let mut c = character::new();
    c.discover_enemy(&Vec2D { x: 500_000, y: 0 });
    assert!(c.has_discovered_enemy());
    for _ in 0..10 {
        c.update_position(1000);
        assert!(c.has_discovered_enemy());
        assert_eq!(c.get_known_enemy_position().x, 500_000);
        assert_eq!(c.get_known_enemy_position().y, 0);
    }
}

#[test]
fn nearby_remembered_spot_is_invalidated_on_revisit() {
    let mut c = character::new();
    // remembered position within view of where the character stands
    c.discover_enemy(&Vec2D { x: 150_000, y: 0 });
    assert!(c.has_discovered_enemy());
    c.update_position(0);
    assert!(!c.has_discovered_enemy());
    // the remembered coordinates themselves are kept
    assert_eq!(c.get_known_enemy_position().x, 150_000);
}

#[test]
fn has_reached_target_uses_touch_radius() {
    let mut c = character::new();
    c.set_position(&Vec2D { x: 0, y: 0 });
    c.discover_enemy(&Vec2D { x: 900_000, y: 900_000 });
    c.set_target(&Vec2D { x: 9_999, y: 0 });
    assert!(c.has_reached_target());
    c.set_target(&Vec2D { x: 10_000, y: 0 });
    assert!(!c.has_reached_target());
}
