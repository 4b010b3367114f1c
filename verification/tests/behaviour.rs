//! Frame-behaviour passes: movement, homing, expiry, idle-wander and
//! collision-to-damage resolution.

use tankgame::collision::{damage_entities_on_collision, Collider, CollisionMask, ProjectileBody, TargetBody};
use tankgame::enemy_ai::{idle_enemy_behaviour, Idle, IdleAction};
use tankgame::geom::Vec2i;
use tankgame::lifetime::ParticleLifetime;
use tankgame::player_input::{handle_player_movement, MoveCommand};
use tankgame::projectiles::{
    despawn_entity_after_duration_expires, move_linear_particles, nearest_enemy,
    rotate_homing_entities_towards_nearest_enemies, DirectedLinearMove,
};
use tankgame::shared::{Health, Movable};

fn enemy_masked() -> Collider {
    Collider::new(vec![CollisionMask::ENEMY])
}

fn projectile_at(x: i64, y: i64) -> ProjectileBody {
    ProjectileBody {
        collider: enemy_masked(),
        pos: Vec2i { x, y },
        size: Vec2i { x: 20_000_000, y: 20_000_000 },
    }
}

fn target_at(x: i64, y: i64, health: u16) -> TargetBody {
    TargetBody {
        collider: enemy_masked(),
        health: Health::new(health),
        pos: Vec2i { x, y },
        size: Vec2i { x: 64_000_000, y: 64_000_000 },
    }
}

#[test]
fn one_hit_costs_twenty_five_points() {
    let projectiles = vec![projectile_at(0, 0)];
    let mut targets = vec![target_at(10_000_000, 0, 100), target_at(900_000_000, 0, 100)];
    let (gone_p, gone_t) = damage_entities_on_collision(&projectiles, &mut targets);
    assert_eq!(gone_p, vec![true]);
    assert_eq!(gone_t, vec![false, false]);
    assert_eq!(targets[0].health.current_health, 75);
    assert_eq!(targets[1].health.current_health, 100);
}

#[test]
fn four_hits_exhaust_a_fresh_target() {
    let projectiles = vec![
        projectile_at(0, 0),
        projectile_at(1_000_000, 0),
        projectile_at(0, 1_000_000),
        projectile_at(-1_000_000, 0),
    ];
    let mut targets = vec![target_at(0, 0, 100)];
    let (gone_p, gone_t) = damage_entities_on_collision(&projectiles, &mut targets);
    assert_eq!(gone_p, vec![true, true, true, true]);
    assert_eq!(gone_t, vec![true]);
    assert_eq!(targets[0].health.current_health, 0);
}

#[test]
fn a_weak_target_blocks_the_last_point() {
    // 20 hit points cannot cover one 25-point hit: the target despawns
    // with its points untouched.
    let projectiles = vec![projectile_at(0, 0)];
    let mut targets = vec![target_at(0, 0, 20)];
    let (_, gone_t) = damage_entities_on_collision(&projectiles, &mut targets);
    assert_eq!(gone_t, vec![true]);
    assert_eq!(targets[0].health.current_health, 20);
}

#[test]
fn masks_gate_the_damage() {
    let mut projectiles = vec![projectile_at(0, 0)];
    projectiles[0].collider = Collider::new(vec![CollisionMask::PLAYER]);
    let mut targets = vec![target_at(0, 0, 100)];
    let (gone_p, gone_t) = damage_entities_on_collision(&projectiles, &mut targets);
    assert_eq!(gone_p, vec![false]);
    assert_eq!(gone_t, vec![false]);
    assert_eq!(targets[0].health.current_health, 100);
}

#[test]
fn distance_gates_the_damage() {
    let projectiles = vec![projectile_at(500_000_000, 500_000_000)];
    let mut targets = vec![target_at(0, 0, 100)];
    let (gone_p, gone_t) = damage_entities_on_collision(&projectiles, &mut targets);
    assert_eq!(gone_p, vec![false]);
    assert_eq!(gone_t, vec![false]);
    assert_eq!(targets[0].health.current_health, 100);
}

#[test]
fn movers_advance_by_velocity_times_time() {
    let mut positions = vec![Vec2i { x: 0, y: 0 }, Vec2i { x: 1_000, y: -1_000 }];
    let moves = vec![
        DirectedLinearMove { velocity: Vec2i { x: 100_000, y: 0 } },
        DirectedLinearMove { velocity: Vec2i { x: -50, y: 50 } },
    ];
    move_linear_particles(&mut positions, &moves, 16);
    assert_eq!(positions[0], Vec2i { x: 1_600_000, y: 0 });
    assert_eq!(positions[1], Vec2i { x: 1_000 - 50 * 16, y: -1_000 + 50 * 16 });
}

#[test]
fn directed_move_scales_direction_by_speed() {
    let m = DirectedLinearMove::move_forwards_with_speed(Vec2i { x: -1000, y: 0 }, 100);
    assert_eq!(m.velocity, Vec2i { x: -100_000, y: 0 });
}

#[test]
fn nearest_enemy_none_without_enemies() {
    assert_eq!(nearest_enemy(Vec2i { x: 0, y: 0 }, &vec![]), None);
}

#[test]
fn nearest_enemy_picks_the_closest() {
    let enemies = vec![
        Vec2i { x: 300, y: 0 },
        Vec2i { x: 0, y: 100 },
        Vec2i { x: -200, y: 0 },
    ];
    assert_eq!(nearest_enemy(Vec2i { x: 0, y: 0 }, &enemies), Some(1));
}

#[test]
fn nearest_enemy_tie_goes_to_the_later_one() {
    let enemies = vec![Vec2i { x: 100, y: 0 }, Vec2i { x: -100, y: 0 }];
    assert_eq!(nearest_enemy(Vec2i { x: 0, y: 0 }, &enemies), Some(1));
}

#[test]
fn every_homing_entity_gets_a_target() {
    let particles = vec![Vec2i { x: 0, y: 0 }, Vec2i { x: 1_000_000, y: 0 }];
    let enemies = vec![Vec2i { x: 100, y: 0 }, Vec2i { x: 999_900, y: 0 }];
    let targets = rotate_homing_entities_towards_nearest_enemies(&particles, &enemies);
    assert_eq!(targets, vec![Some(0), Some(1)]);
}

#[test]
fn homing_without_enemies_selects_nothing() {
    let particles = vec![Vec2i { x: 0, y: 0 }];
    let targets = rotate_homing_entities_towards_nearest_enemies(&particles, &vec![]);
    assert_eq!(targets, vec![None]);
}

#[test]
fn expired_lifetimes_are_flagged_and_left_alone() {
    let mut lifetimes = vec![ParticleLifetime::new(0), ParticleLifetime::new(100)];
    let gone = despawn_entity_after_duration_expires(&mut lifetimes, 30);
    assert_eq!(gone, vec![true, false]);
    assert_eq!(lifetimes[0].elapsed_ms, 0);
    assert_eq!(lifetimes[1].elapsed_ms, 30);
}

#[test]
fn expiry_takes_one_extra_frame() {
    // The frame that finishes the countdown only records it; the entity
    // is flagged on the frame after.
    let mut lifetimes = vec![ParticleLifetime::new(50)];
    let gone = despawn_entity_after_duration_expires(&mut lifetimes, 60);
    assert_eq!(gone, vec![false]);
    assert!(lifetimes[0].finished());
    let gone2 = despawn_entity_after_duration_expires(&mut lifetimes, 60);
    assert_eq!(gone2, vec![true]);
}

#[test]
fn idle_waits_out_its_delay() {
    let mut idle = Idle::default();
    let movable = Movable::default();
    let a = idle_enemy_behaviour(
        &mut idle,
        Vec2i { x: 0, y: 0 },
        &movable,
        1_500,
        Vec2i { x: 70_000_000, y: -60_000_000 },
    );
    assert_eq!(a, IdleAction::Waiting);
    assert_eq!(idle.delay.elapsed_ms, 1_500);
    assert_eq!(idle.idle_move, Vec2i { x: 0, y: 0 });
}

#[test]
fn idle_walks_towards_a_far_target() {
    let mut idle = Idle::default();
    idle.idle_move = Vec2i { x: 100_000_000, y: 0 };
    idle.delay.tick(4_000);
    let movable = Movable { speed: 50, rotation_speed_cdeg: 2000 };
    let a = idle_enemy_behaviour(
        &mut idle,
        Vec2i { x: 0, y: 0 },
        &movable,
        16,
        Vec2i { x: 0, y: 0 },
    );
    assert_eq!(a, IdleAction::Moving { target: Vec2i { x: 100_000_000, y: 0 }, speed: 50 });
    assert_eq!(idle.idle_move, Vec2i { x: 100_000_000, y: 0 });
}

#[test]
fn idle_retargets_on_arrival() {
    let mut idle = Idle::default();
    idle.idle_move = Vec2i { x: 30_000_000, y: 0 };
    idle.delay.tick(4_000);
    let movable = Movable::default();
    let offset = Vec2i { x: 70_000_000, y: -60_000_000 };
    let a = idle_enemy_behaviour(&mut idle, Vec2i { x: 0, y: 0 }, &movable, 16, offset);
    assert_eq!(a, IdleAction::Retargeted);
    assert_eq!(idle.idle_move, Vec2i { x: 100_000_000, y: -60_000_000 });
    assert_eq!(idle.delay.elapsed_ms, 0);
}

#[test]
fn opposed_movement_keys_cancel() {
    let m = Movable { speed: 100, rotation_speed_cdeg: 8_000 };
    assert_eq!(
        handle_player_movement(true, true, true, true, &m),
        MoveCommand { advance_speed: 0, turn_rate_cdeg: 0 }
    );
    assert_eq!(
        handle_player_movement(true, false, false, true, &m),
        MoveCommand { advance_speed: 100, turn_rate_cdeg: -8_000 }
    );
    assert_eq!(
        handle_player_movement(false, true, true, false, &m),
        MoveCommand { advance_speed: -100, turn_rate_cdeg: 8_000 }
    );
}
