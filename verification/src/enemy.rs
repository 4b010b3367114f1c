//! The enemy entity and what it is made of when it spawns.

use vstd::prelude::*;

use crate::enemy_ai::{Idle, IDLE_WALK_DISTANCE};
use crate::geom::Vec2i;
use crate::lifetime::ParticleLifetime;
use crate::shared::{EntitySharedBundle, Movable, DEFAULT_ENTITY_SIZE, DEFAULT_ROTATION_SPEED_CDEG};

verus! {

/// Delay between two idle walks of a freshly spawned enemy, in
/// milliseconds.
pub const ENEMY_IDLE_DELAY_MS: u32 = 2_000;

/// First idle target of a freshly spawned enemy, in microunits.
pub const ENEMY_FIRST_IDLE_TARGET: i64 = 100_000_000;

/// Walking speed of an enemy, in world units per second.
pub const ENEMY_SPEED: i64 = 50;

/// Marker for enemy entities.
#[derive(Clone, Copy, PartialEq, Eq, Structural, Debug)]
pub struct Enemy;

/// What an enemy entity is made of when it spawns.
pub struct EnemyBundle {
    pub enemy: Enemy,
    pub ai: Idle,
    pub movable: Movable,
    pub shared: EntitySharedBundle,
}

impl EnemyBundle {
    /// A named enemy that idles every two seconds, first aiming a little
    /// north-east of the origin, and walks at fifty units per second.
    pub fn new(name: String) -> (b: EnemyBundle)
        ensures
            b.shared.name.0@ == name@,
            b.shared.size == (Vec2i { x: DEFAULT_ENTITY_SIZE, y: DEFAULT_ENTITY_SIZE }),
            b.ai.delay.duration_ms == ENEMY_IDLE_DELAY_MS,
            b.ai.delay.elapsed_ms == 0,
            b.ai.idle_move == (Vec2i { x: ENEMY_FIRST_IDLE_TARGET, y: ENEMY_FIRST_IDLE_TARGET }),
            b.ai.idle_walk_distance == IDLE_WALK_DISTANCE,
            b.movable.speed == ENEMY_SPEED,
            b.movable.rotation_speed_cdeg == DEFAULT_ROTATION_SPEED_CDEG,
    {
        let mut shared = EntitySharedBundle::default();
        shared.name.0 = name;

        let mut ai = Idle::default();
        ai.delay = ParticleLifetime::new(ENEMY_IDLE_DELAY_MS);
        ai.idle_move = Vec2i { x: ENEMY_FIRST_IDLE_TARGET, y: ENEMY_FIRST_IDLE_TARGET };

        let mut movable = Movable::default();
        movable.speed = ENEMY_SPEED;

        EnemyBundle { enemy: Enemy, ai, movable, shared }
    }
}

} // verus!
