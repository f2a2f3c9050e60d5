use war_fog::character::CharacterStatus;
use war_fog::game::Game;
use war_fog::scout::ScoutStatus;
use war_fog::vec2d::Vec2D;

#[test]
fn new_game_places_enemy_in_wander_square() {
    for _ in 0..50 {
        let g = Game::new();
        assert_eq!(g.get_player_position().x, 0);
        assert_eq!(g.get_player_position().y, 0);
        let e = g.get_enemy_position();
        assert!(-500_000 <= e.x && e.x <= 500_000);
        assert!(-500_000 <= e.y && e.y <= 500_000);
        assert!(!g.is_over());
    }
}

#[test]
fn enemy_starting_positions_vary() {
    let mut xs = Vec::new();
    for _ in 0..200 {
        xs.push(Game::new().get_enemy_position().x);
    }
    let first = xs[0];
    assert!(xs.iter().any(|&x| x != first));
}

#[test]
fn idle_healthy_enemy_wanders() {
    let mut g = Game::new_with_enemy_at(Vec2D { x: 400_000, y: 0 });
    // out of view: no pursuit, no combat; the policy sends it wandering
    g.update_with_wander(1000, Vec2D { x: -300_000, y: 100_000 });
    assert_eq!(*g.get_enemy().get_status(), CharacterStatus::Moving);
    assert_eq!(g.get_enemy().get_target_position().x, -300_000);
    assert_eq!(g.get_enemy().get_target_position().y, 100_000);
    assert!(!g.is_enemy_visible());
    assert!(!g.is_enemy_discovered());
    // the idle player stays put
    assert_eq!(g.get_player_position().x, 0);
}

#[test]
fn combat_damage_tracks_attacker_health() {
    // enemy within fight radius of the player; both at full health
    let mut g = Game::new_with_enemy_at(Vec2D { x: 50_000, y: 0 });
    let wander = Vec2D { x: 400_000, y: 400_000 };

    g.update_with_wander(1000, wander);
    // player loss: 2 * dt * enemy health fraction = 2000 sub-units
    assert_eq!(*g.get_player().get_health(), 98_000);
    // enemy loss is scaled by the player's already-reduced health
    assert_eq!(*g.get_enemy().get_health(), 98_040);
    assert_eq!(*g.get_player().get_status(), CharacterStatus::Fighting);
    assert_eq!(*g.get_enemy().get_status(), CharacterStatus::Fighting);
    assert!(g.is_enemy_visible());
    assert!(g.is_enemy_discovered());
    assert_eq!(g.get_discovered_enemy_position().x, 50_000);

    let player_loss_one = 100_000 - 98_000;
    g.update_with_wander(1000, wander);
    // fighting drifts health down by dt before the blows land
    // player: 98_000 - 1000 - floor(2 * 1000 * 97_040 / 100_000) = 95_060
    assert_eq!(*g.get_player().get_health(), 95_060);
    // enemy: 97_040 - floor(2 * 1000 * 95_060 / 100_000) = 95_139
    assert_eq!(*g.get_enemy().get_health(), 95_139);
    let player_loss_two = 97_000 - 95_060;
    // proportionality shrinks as the opponent weakens
    assert!(player_loss_two < player_loss_one);
}

#[test]
fn game_ends_exactly_when_a_combatant_drops_to_zero() {
    let mut g = Game::new_with_enemy_at(Vec2D { x: 50_000, y: 0 });
    let wander = Vec2D { x: 400_000, y: 400_000 };
    let mut over = false;
    for _ in 0..200 {
        g.update_with_wander(1000, wander);
        let player_health = *g.get_player().get_health();
        let enemy_health = *g.get_enemy().get_health();
        assert_eq!(g.is_over(), player_health <= 0 || enemy_health <= 0);
        if g.is_over() {
            over = true;
            break;
        }
    }
    assert!(over, "combat never ended");
    assert_eq!(*g.get_player().get_health(), 0);
}

#[test]
fn scout_mission_starts_only_when_idle() {
    let mut g = Game::new_with_enemy_at(Vec2D { x: 450_000, y: 450_000 });
    g.set_player_target(&Vec2D { x: 40_000, y: 0 });
    g.update_with_wander(400, Vec2D { x: 400_000, y: 0 });
    // the player has moved; the scout mission snapshots the live position
    let player_x = g.get_player_position().x;
    assert_eq!(player_x, 20_000);
    g.set_scout_mission(&Vec2D { x: 300_000, y: 0 });
    assert_eq!(*g.get_scout().get_status(), ScoutStatus::GoingToTarget);
    // the scout is placed at the player when it sets out
    assert_eq!(g.get_scout().get_position().x, 20_000);
    // a second mission while busy is declined silently
    g.set_scout_mission(&Vec2D { x: -300_000, y: 0 });
    assert_eq!(*g.get_scout().get_status(), ScoutStatus::GoingToTarget);
    assert_eq!(g.get_scout().character.get_target_position().x, 300_000);
}

#[test]
fn scout_relays_enemy_position_to_player() {
    // enemy sits out of the player's view but on the scout's outbound path
    let mut g = Game::new_with_enemy_at(Vec2D { x: 400_000, y: 0 });
    let wander = Vec2D { x: 400_000, y: 0 };  // keep the enemy where it is
    g.set_scout_mission(&Vec2D { x: 400_000, y: 0 });
    let mut delivered = false;
    for _ in 0..200 {
        g.update_with_wander(100, wander);
        assert!(!g.is_enemy_visible());
        if g.is_enemy_discovered() {
            delivered = true;
            break;
        }
    }
    assert!(delivered, "the sighting never reached the player");
    // the delivered memory points at where the enemy was sighted
    assert_eq!(g.get_discovered_enemy_position().y, 0);
    assert!(g.get_discovered_enemy_position().x >= 200_000);
    assert_eq!(*g.get_scout().get_status(), ScoutStatus::Idle);
    assert!(!g.get_scout().has_enemy_position_to_deliver());
}

#[test]
fn player_target_command_moves_the_player() {
    let mut g = Game::new_with_enemy_at(Vec2D { x: 450_000, y: -450_000 });
    g.set_player_target(&Vec2D { x: 100_000, y: 0 });
    assert_eq!(*g.get_player().get_status(), CharacterStatus::Moving);
    assert_eq!(g.get_player_target_position().x, 100_000);
    g.update_with_wander(1000, Vec2D { x: 450_000, y: -450_000 });
    assert_eq!(g.get_player_position().x, 50_000);
}

#[test]
fn can_update_checks_the_time_delta() {
    let g = Game::new();
    assert!(g.can_update(0));
    assert!(g.can_update(1_000_000_000));
    assert!(!g.can_update(-1));
    assert!(!g.can_update(1_000_000_001));
}

#[test]
fn update_with_random_wander_keeps_idle_player_put() {
    let mut g = Game::new_with_enemy_at(Vec2D { x: 450_000, y: 450_000 });
    for _ in 0..20 {
        assert!(g.can_update(500));
        g.update(500);
        assert_eq!(g.get_player_position().x, 0);
        assert_eq!(g.get_player_position().y, 0);
        let h = *g.get_player().get_health();
        assert!(0 <= h && h <= 100_000);
    }
}
