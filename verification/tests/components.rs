//! Component-level behaviour: health, countdowns, geometry and the
//! spawn records.

use tankgame::collision::{collide, collider_masks_intersect, Collider, CollisionMask};
use tankgame::enemy::EnemyBundle;
use tankgame::enemy_ai::Idle;
use tankgame::geom::{dist_sq_i128, linear_step, Vec2i};
use tankgame::lifetime::ParticleLifetime;
use tankgame::player::{PlayerAction, TankBundle};
use tankgame::player_input::{get_input_manager, handle_player_firing, InputButton};
use tankgame::shared::{EntitySharedBundle, Health, Movable};
use tankgame::spawner::{create_projectile, spawn_enemies_on_demand, spawn_enemy, spawn_player, spawn_tank_turret};

#[test]
fn health_starts_full() {
    let h = Health::new(100);
    assert_eq!(h.max_health, 100);
    assert_eq!(h.current_health, 100);
}

#[test]
fn damage_absorbed_leaves_remainder() {
    let mut h = Health::new(100);
    assert_eq!(h.try_apply_damage(25), Some(75));
    assert_eq!(h.current_health, 75);
    assert_eq!(h.max_health, 100);
}

#[test]
fn damage_overshoot_changes_nothing() {
    let mut h = Health::new(20);
    assert_eq!(h.try_apply_damage(25), None);
    assert_eq!(h.current_health, 20);
}

#[test]
fn damage_to_exactly_zero_is_fatal() {
    let mut h = Health::new(25);
    assert_eq!(h.try_apply_damage(25), None);
    assert_eq!(h.current_health, 0);
}

#[test]
fn countdown_ticks_and_saturates() {
    let mut t = ParticleLifetime::new(100);
    assert!(!t.finished());
    t.tick(60);
    assert_eq!(t.elapsed_ms, 60);
    assert!(!t.finished());
    t.tick(1000);
    assert_eq!(t.elapsed_ms, 100);
    assert!(t.finished());
    t.reset();
    assert_eq!(t.elapsed_ms, 0);
    assert!(!t.finished());
}

#[test]
fn zero_duration_is_finished_at_once() {
    let t = ParticleLifetime::new(0);
    assert!(t.finished());
}

#[test]
fn squared_distance_is_exact() {
    let a = Vec2i { x: 3, y: -4 };
    let b = Vec2i { x: 0, y: 0 };
    assert_eq!(dist_sq_i128(a, b), 25);
    assert_eq!(dist_sq_i128(a, a), 0);
}

#[test]
fn linear_step_is_an_exact_product() {
    let p = linear_step(Vec2i { x: 5, y: -7 }, Vec2i { x: 100, y: -3 }, 16);
    assert_eq!(p.x, 5 + 100 * 16);
    assert_eq!(p.y, -7 - 3 * 16);
}

#[test]
fn overlapping_boxes_collide() {
    let size = Vec2i { x: 64_000_000, y: 64_000_000 };
    let a = Vec2i { x: 0, y: 0 };
    let b = Vec2i { x: 63_000_000, y: 10_000_000 };
    assert!(collide(a, size, b, size));
}

#[test]
fn touching_boxes_do_not_collide() {
    let size = Vec2i { x: 64_000_000, y: 64_000_000 };
    let a = Vec2i { x: 0, y: 0 };
    let b = Vec2i { x: 64_000_000, y: 0 };
    assert!(!collide(a, size, b, size));
}

#[test]
fn masks_must_share_an_element() {
    let enemy_only = Collider::new(vec![CollisionMask::ENEMY]);
    let player_only = Collider::new(vec![CollisionMask::PLAYER]);
    let both = Collider::new(vec![CollisionMask::PLAYER, CollisionMask::ENEMY]);
    let none = Collider::new(vec![]);
    assert!(collider_masks_intersect(&enemy_only, &both));
    assert!(collider_masks_intersect(&both, &player_only));
    assert!(!collider_masks_intersect(&enemy_only, &player_only));
    assert!(!collider_masks_intersect(&none, &both));
}

#[test]
fn movable_default_is_a_slow_walker() {
    let m = Movable::default();
    assert_eq!(m.speed, 20);
    assert_eq!(m.rotation_speed_cdeg, 2000);
}

#[test]
fn shared_bundle_default_name_and_size() {
    let b = EntitySharedBundle::default();
    assert_eq!(b.name.0, "Unnamed Entity");
    assert_eq!(b.size, Vec2i { x: 64_000_000, y: 64_000_000 });
}

#[test]
fn idle_default_waits_four_seconds() {
    let s = Idle::default();
    assert_eq!(s.delay.duration_ms, 4_000);
    assert_eq!(s.delay.elapsed_ms, 0);
    assert_eq!(s.idle_move, Vec2i { x: 0, y: 0 });
    assert_eq!(s.idle_walk_distance, 200);
}

#[test]
fn enemy_bundle_carries_its_name_and_tuning() {
    let b = EnemyBundle::new("Grunt".to_string());
    assert_eq!(b.shared.name.0, "Grunt");
    assert_eq!(b.shared.size, Vec2i { x: 64_000_000, y: 64_000_000 });
    assert_eq!(b.ai.delay.duration_ms, 2_000);
    assert_eq!(b.ai.idle_move, Vec2i { x: 100_000_000, y: 100_000_000 });
    assert_eq!(b.movable.speed, 50);
    assert_eq!(b.movable.rotation_speed_cdeg, 2000);
}

#[test]
fn tank_bundle_tuning() {
    let t = TankBundle::new();
    assert_eq!(t.movable.speed, 100);
    assert_eq!(t.movable.rotation_speed_cdeg, 8_000);
    assert_eq!(t.tank_body.size, Vec2i { x: 64_000_000, y: 64_000_000 });
}

#[test]
fn input_map_binds_all_five_buttons() {
    let m = get_input_manager();
    assert_eq!(m.len(), 5);
    assert_eq!(m[0], (InputButton::KeyW, PlayerAction::MoveForward));
    assert_eq!(m[1], (InputButton::KeyS, PlayerAction::MoveBackwards));
    assert_eq!(m[2], (InputButton::KeyA, PlayerAction::TurnLeft));
    assert_eq!(m[3], (InputButton::KeyD, PlayerAction::TurnRight));
    assert_eq!(m[4], (InputButton::MouseLeft, PlayerAction::FireCannon));
}

#[test]
fn firing_launches_a_straight_and_a_homing_shot() {
    let pos = Vec2i { x: 1_000_000, y: 2_000_000 };
    let dir = Vec2i { x: 0, y: -1000 };
    let shots = handle_player_firing(true, pos, dir);
    assert_eq!(shots.len(), 2);
    for s in &shots {
        assert_eq!(s.pos, pos);
        assert_eq!(s.dir, dir);
        assert_eq!(s.speed, 100);
        assert_eq!(s.lifetime_ms, 20_000);
        assert_eq!(s.size, Vec2i { x: 20_000_000, y: 20_000_000 });
        assert_eq!(s.collider.collision_mask, vec![CollisionMask::ENEMY]);
    }
    assert!(!shots[0].homing);
    assert!(shots[1].homing);
}

#[test]
fn no_press_no_shots() {
    let shots = handle_player_firing(false, Vec2i { x: 0, y: 0 }, Vec2i { x: 0, y: 1000 });
    assert!(shots.is_empty());
}

#[test]
fn enemy_spawn_record_is_complete() {
    let e = spawn_enemy("Enemy2".to_string(), Vec2i { x: 5, y: 6 });
    assert_eq!(e.bundle.shared.name.0, "Enemy2");
    assert_eq!(e.bundle.shared.size, Vec2i { x: 64_000_000, y: 64_000_000 });
    assert_eq!(e.bundle.ai.idle_walk_distance, 200);
    assert_eq!(e.bundle.movable.rotation_speed_cdeg, 2000);
    assert_eq!(e.health.max_health, 100);
    assert_eq!(e.health.current_health, 100);
    assert_eq!(e.collider.collision_mask, vec![CollisionMask::ENEMY]);
    assert_eq!(e.pos, Vec2i { x: 5, y: 6 });
}

#[test]
fn enemies_spawn_only_when_none_is_left() {
    let pos = Vec2i { x: 250_000_000, y: -230_000_000 };
    let spawned = spawn_enemies_on_demand(0, pos);
    assert!(spawned.is_some());
    let e = spawned.unwrap();
    assert_eq!(e.bundle.shared.name.0, "Enemy1");
    assert_eq!(e.pos, pos);
    assert!(spawn_enemies_on_demand(1, pos).is_none());
    assert!(spawn_enemies_on_demand(7, pos).is_none());
}

#[test]
fn player_spawn_carries_tank_and_key_map() {
    let p = spawn_player();
    assert_eq!(p.tank.movable.speed, 100);
    assert_eq!(p.tank.tank_body.size, Vec2i { x: 64_000_000, y: 64_000_000 });
    assert_eq!(p.input_map.len(), 5);
}

#[test]
fn turret_spawn_sits_above_the_body() {
    let t = spawn_tank_turret();
    assert_eq!(t.size, Vec2i { x: 64_000_000, y: 32_000_000 });
    assert_eq!(t.offset, Vec2i { x: 0, y: 10_000_000 });
    assert_eq!(t.input_map.len(), 5);
}

#[test]
fn create_projectile_is_straight_flying() {
    let p = create_projectile(
        Vec2i { x: 1, y: 2 },
        Vec2i { x: 1000, y: 0 },
        100,
        20_000,
        Vec2i { x: 20_000_000, y: 20_000_000 },
    );
    assert!(!p.homing);
    assert_eq!(p.pos, Vec2i { x: 1, y: 2 });
    assert_eq!(p.dir, Vec2i { x: 1000, y: 0 });
    assert_eq!(p.collider.collision_mask, vec![CollisionMask::ENEMY]);
}
