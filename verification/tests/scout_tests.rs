use war_fog::collision::{are_positions_colliding, CollisionType};
use war_fog::scout::{Scout, ScoutStatus, SCOUT_SPEED};
use war_fog::vec2d::Vec2D;

#[test]
fn new_scout_is_idle_and_fast() {
    let s = Scout::new();
    assert_eq!(*s.get_status(), ScoutStatus::Idle);
    assert!(!s.has_enemy_position_to_deliver());
    assert_eq!(s.character.max_speed, SCOUT_SPEED);
    assert_eq!(s.get_position().x, 0);
    assert_eq!(s.get_position().y, 0);
}

#[test]
fn mission_runs_out_and_back_then_touch_sets_idle() {
    // the scout starts at the player (0,0); the orchestrator's status
    // transition comes first, then the mission itself
    let mut s = Scout::new();
    let player_position = Vec2D { x: 0, y: 0 };
    s.set_status(ScoutStatus::GoingToTarget);
    s.set_mission(&Vec2D { x: 200_000, y: 0 }, &player_position);
    assert_eq!(*s.get_status(), ScoutStatus::GoingToTarget);

    // outbound leg: 7.5 units every 100 ms tick
    let mut rerouted_at: Option<i64> = None;
    for _ in 0..60 {
        s.update(100);
        if *s.get_status() == ScoutStatus::GoingToPlayer {
            rerouted_at = Some(s.get_position().x);
            break;
        }
    }
    // it reached (200,0) up to the touch radius, then turned around
    let turn = rerouted_at.expect("scout never reached its target");
    assert!((turn - 200_000).abs() < 10_000);

    // return leg: heading for the snapshot (0,0)
    let mut home = false;
    for _ in 0..60 {
        s.update(100);
        if are_positions_colliding(s.get_position(), &player_position, CollisionType::Touch) {
            home = true;
            break;
        }
    }
    assert!(home, "scout never came back");
    // the orchestrator's touch check stands it down
    assert_eq!(*s.get_status(), ScoutStatus::GoingToPlayer);
    s.set_idle();
    assert_eq!(*s.get_status(), ScoutStatus::Idle);
    assert_eq!(s.character.speed.x, 0);
    assert_eq!(s.character.speed.y, 0);
}

#[test]
fn discovery_reroutes_home_and_marks_delivery() {
    let mut s = Scout::new();
    s.set_status(ScoutStatus::GoingToTarget);
    s.set_mission(&Vec2D { x: 200_000, y: 0 }, &Vec2D { x: 0, y: 0 });
    s.update(1000);  // 75 units out
    assert_eq!(s.get_position().x, 75_000);
    s.discover_enemy(&Vec2D { x: 180_000, y: 40_000 });
    assert!(s.has_enemy_position_to_deliver());
    // beelines for the player snapshot whatever the current leg
    assert_eq!(s.character.get_target_position().x, 0);
    assert_eq!(s.character.get_target_position().y, 0);
    assert!(s.character.speed.x < 0);
    // the sighting is remembered and handed over exactly once
    let delivered = s.deliver_enemy_position();
    assert_eq!(delivered.x, 180_000);
    assert_eq!(delivered.y, 40_000);
    assert!(!s.has_enemy_position_to_deliver());
}

#[test]
fn mission_snapshot_is_kept_not_live() {
    let mut s = Scout::new();
    s.set_status(ScoutStatus::GoingToTarget);
    s.set_mission(&Vec2D { x: 100_000, y: 0 }, &Vec2D { x: -50_000, y: 0 });
    // drive it to the target; the reroute must aim at the snapshot
    for _ in 0..40 {
        s.update(100);
        if *s.get_status() == ScoutStatus::GoingToPlayer {
            break;
        }
    }
    assert_eq!(*s.get_status(), ScoutStatus::GoingToPlayer);
    assert_eq!(s.character.get_target_position().x, -50_000);
}

#[test]
fn set_visible_round_trips() {
    let mut s = Scout::new();
    assert!(!s.is_visible());
    s.set_visible(true);
    assert!(s.is_visible());
    s.set_visible(false);
    assert!(!s.is_visible());
}
