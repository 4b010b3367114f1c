//! Spawn decisions: when a new enemy is due and what each freshly
//! spawned entity is made of.

use vstd::prelude::*;

use crate::collision::{Collider, CollisionMask};
use crate::enemy::{EnemyBundle, ENEMY_FIRST_IDLE_TARGET, ENEMY_IDLE_DELAY_MS, ENEMY_SPEED};
use crate::enemy_ai::IDLE_WALK_DISTANCE;
use crate::geom::Vec2i;
use crate::player::{MouseControlled, PlayerAction, PlayerControlled, TankBundle, TANK_BODY_HEIGHT, TANK_BODY_WIDTH, TANK_ROTATION_SPEED_CDEG, TANK_SPEED};
use crate::player_input::{get_input_manager, input_map_record, InputButton};
use crate::projectiles::{projectile_spawn_record, ProjectileSpawn};
use crate::shared::{Health, DEFAULT_ENTITY_SIZE, DEFAULT_ROTATION_SPEED_CDEG};

verus! {

/// Hit points a freshly spawned enemy carries.
pub const ENEMY_HEALTH: u16 = 100;

/// Width, in microunits, of the turret box.
pub const TURRET_WIDTH: i64 = 64_000_000;

/// Height, in microunits, of the turret box.
pub const TURRET_HEIGHT: i64 = 32_000_000;

/// How far above the tank body the turret sits, in microunits.
pub const TURRET_OFFSET_Y: i64 = 10_000_000;

/// Everything needed to put one enemy into the world.
pub struct EnemySpawn {
    pub bundle: EnemyBundle,
    pub collider: Collider,
    pub health: Health,
    pub pos: Vec2i,
}

/// The record an enemy spawner must produce: the fresh bundle under the
/// given name, an enemy-masked collider, full health, and the given
/// position.
pub open spec fn enemy_spawn_record(e: EnemySpawn, name: Seq<char>, pos: Vec2i) -> bool {
    &&& e.bundle.shared.name.0@ == name
    &&& e.bundle.shared.size == (Vec2i { x: DEFAULT_ENTITY_SIZE, y: DEFAULT_ENTITY_SIZE })
    &&& e.bundle.ai.delay.duration_ms == ENEMY_IDLE_DELAY_MS
    &&& e.bundle.ai.delay.elapsed_ms == 0
    &&& e.bundle.ai.idle_move == (Vec2i {
        x: ENEMY_FIRST_IDLE_TARGET,
        y: ENEMY_FIRST_IDLE_TARGET,
    })
    &&& e.bundle.ai.idle_walk_distance == IDLE_WALK_DISTANCE
    &&& e.bundle.movable.speed == ENEMY_SPEED
    &&& e.bundle.movable.rotation_speed_cdeg == DEFAULT_ROTATION_SPEED_CDEG
    &&& e.collider.collision_mask@ == seq![CollisionMask::ENEMY]
    &&& e.health.max_health == ENEMY_HEALTH
    &&& e.health.current_health == ENEMY_HEALTH
    &&& e.pos == pos
}

/// One named enemy at `pos`, at full health, colliding as an enemy.
pub fn spawn_enemy(name: String, pos: Vec2i) -> (e: EnemySpawn)
    ensures
        enemy_spawn_record(e, name@, pos),
{
    let mut mask: Vec<CollisionMask> = Vec::new();
    mask.push(CollisionMask::ENEMY);
    let e = EnemySpawn {
        bundle: EnemyBundle::new(name),
        collider: Collider::new(mask),
        health: Health::new(ENEMY_HEALTH),
        pos,
    };
    proof {
        assert(e.collider.collision_mask@ =~= seq![CollisionMask::ENEMY]);
    }
    e
}

/// Keeps the world populated: orders one fresh enemy, at the caller's
/// randomly drawn position, exactly when none is left.
pub fn spawn_enemies_on_demand(enemy_count: usize, pos: Vec2i) -> (r: Option<EnemySpawn>)
    ensures
        match r {
            None => enemy_count >= 1,
            Some(e) => enemy_count == 0 && enemy_spawn_record(e, "Enemy1"@, pos),
        },
{
    if enemy_count < 1 {
        Some(spawn_enemy("Enemy1".to_owned(), pos))
    } else {
        None
    }
}

/// Everything needed to put the player's tank into the world.
pub struct PlayerSpawn {
    pub tank: TankBundle,
    pub controlled: PlayerControlled,
    pub input_map: Vec<(InputButton, PlayerAction)>,
}

/// The player's tank: the fresh tank bundle under player control, with
/// the fixed key map attached.
pub fn spawn_player() -> (p: PlayerSpawn)
    ensures
        p.tank.movable.speed == TANK_SPEED,
        p.tank.movable.rotation_speed_cdeg == TANK_ROTATION_SPEED_CDEG,
        p.tank.tank_body.size == (Vec2i { x: TANK_BODY_WIDTH, y: TANK_BODY_HEIGHT }),
        input_map_record(p.input_map@),
{
    PlayerSpawn {
        tank: TankBundle::new(),
        controlled: PlayerControlled,
        input_map: get_input_manager(),
    }
}

/// Everything needed to put the tank's turret into the world.
pub struct TurretSpawn {
    pub size: Vec2i,
    pub offset: Vec2i,
    pub mouse_controlled: MouseControlled,
    pub input_map: Vec<(InputButton, PlayerAction)>,
}

/// The turret: a wide, flat box sitting a little above the tank body,
/// following the mouse, with the fixed key map attached.
pub fn spawn_tank_turret() -> (t: TurretSpawn)
    ensures
        t.size == (Vec2i { x: TURRET_WIDTH, y: TURRET_HEIGHT }),
        t.offset == (Vec2i { x: 0, y: TURRET_OFFSET_Y }),
        input_map_record(t.input_map@),
{
    TurretSpawn {
        size: Vec2i { x: TURRET_WIDTH, y: TURRET_HEIGHT },
        offset: Vec2i { x: 0, y: TURRET_OFFSET_Y },
        mouse_controlled: MouseControlled,
        input_map: get_input_manager(),
    }
}

/// One straight-flying projectile with the given placement, motion,
/// lifetime and box size.
pub fn create_projectile(
    pos: Vec2i,
    dir: Vec2i,
    speed: i64,
    lifetime_ms: u32,
    size: Vec2i,
) -> (p: ProjectileSpawn)
    ensures
        projectile_spawn_record(p, pos, dir, speed, lifetime_ms, size, false),
{
    let mut mask: Vec<CollisionMask> = Vec::new();
    mask.push(CollisionMask::ENEMY);
    let p = ProjectileSpawn {
        pos,
        dir,
        speed,
        lifetime_ms,
        size,
        collider: Collider::new(mask),
        homing: false,
    };
    proof {
        assert(p.collider.collision_mask@ =~= seq![CollisionMask::ENEMY]);
    }
    p
}

} // verus!
