//! Projectile behaviour: straight-line movement, homing target selection
//! and despawn on lifetime expiry.

use vstd::prelude::*;

use crate::collision::{Collider, CollisionMask};
use crate::geom::{dist_sq, dist_sq_i128, linear_step, Vec2i, DT_LIMIT_MS};
use crate::lifetime::{spec_ticked, ParticleLifetime};

verus! {

/// Largest magnitude a facing-direction component may take
/// (a unit direction is scaled to a thousand milliunits).
pub const MAX_DIR: i64 = 10_000;

/// Largest speed, in world units per second, a mover accepts.
pub const MAX_SPEED: i64 = 100_000;

/// Marker for projectile entities.
#[derive(Clone, Copy, PartialEq, Eq, Structural, Debug)]
pub struct Projectile {}

/// Straight-line motion at a fixed velocity, in milliunits per second.
#[derive(Clone, Copy, PartialEq, Eq, Structural, Debug)]
pub struct DirectedLinearMove {
    pub velocity: Vec2i,
}

impl DirectedLinearMove {
    /// Heads along `dir` — a facing direction scaled to about a thousand
    /// milliunits — at `speed` world units per second.
    pub fn move_forwards_with_speed(dir: Vec2i, speed: i64) -> (m: DirectedLinearMove)
        requires
            -MAX_DIR <= dir.x <= MAX_DIR,
            -MAX_DIR <= dir.y <= MAX_DIR,
            0 <= speed <= MAX_SPEED,
        ensures
            m.velocity.x == dir.x * speed,
            m.velocity.y == dir.y * speed,
            m.velocity.is_velocity(),
    {
        proof {
            assert(-1_000_000_000 <= dir.x * speed <= 1_000_000_000
                && -1_000_000_000 <= dir.y * speed <= 1_000_000_000) by (nonlinear_arith)
                requires
                    -10_000 <= dir.x <= 10_000,
                    -10_000 <= dir.y <= 10_000,
                    0 <= speed <= 100_000,
            ;
        }
        DirectedLinearMove { velocity: Vec2i { x: dir.x * speed, y: dir.y * speed } }
    }
}

/// Everything needed to put one projectile into the world: where it
/// starts, which way it faces, how it moves and when it expires.
pub struct ProjectileSpawn {
    pub pos: Vec2i,
    pub dir: Vec2i,
    pub speed: i64,
    pub lifetime_ms: u32,
    pub size: Vec2i,
    pub collider: Collider,
    pub homing: bool,
}

/// The record a projectile spawner must produce: the given placement and
/// motion, and a collider that may interact with enemies only.
pub open spec fn projectile_spawn_record(
    p: ProjectileSpawn,
    pos: Vec2i,
    dir: Vec2i,
    speed: i64,
    lifetime_ms: u32,
    size: Vec2i,
    homing: bool,
) -> bool {
    &&& p.pos == pos
    &&& p.dir == dir
    &&& p.speed == speed
    &&& p.lifetime_ms == lifetime_ms
    &&& p.size == size
    &&& p.collider.collision_mask@ == seq![CollisionMask::ENEMY]
    &&& p.homing == homing
}

/// What a projectile entity is made of when it spawns.
pub struct ProjectileBundle {
    pub projectile_lifetime: ParticleLifetime,
    pub pos: Vec2i,
}

impl ProjectileBundle {
    pub fn new(pos: Vec2i, particle_lifetime_duration_ms: u32) -> (b: ProjectileBundle)
        ensures
            b.pos == pos,
            b.projectile_lifetime.duration_ms == particle_lifetime_duration_ms,
            b.projectile_lifetime.elapsed_ms == 0,
    {
        ProjectileBundle { projectile_lifetime: ParticleLifetime::new(particle_lifetime_duration_ms), pos }
    }
}

/// Advances every mover by exactly `velocity * dt_ms` microunits.
pub fn move_linear_particles(
    positions: &mut Vec<Vec2i>,
    moves: &Vec<DirectedLinearMove>,
    dt_ms: u32,
)
    requires
        old(positions)@.len() == moves@.len(),
        forall|k: int|
            0 <= k < old(positions)@.len() ==> (#[trigger] old(positions)@[k]).in_world(),
        forall|k: int| 0 <= k < moves@.len() ==> (#[trigger] moves@[k]).velocity.is_velocity(),
        dt_ms <= DT_LIMIT_MS,
    ensures
        final(positions)@.len() == old(positions)@.len(),
        forall|k: int|
            0 <= k < old(positions)@.len()
                ==> (#[trigger] final(positions)@[k]).x == old(positions)@[k].x
                    + moves@[k].velocity.x * dt_ms
                && final(positions)@[k].y == old(positions)@[k].y + moves@[k].velocity.y * dt_ms,
{
    let n = positions.len();
    let mut k: usize = 0;
    while k < n
        invariant
            k <= n,
            n == old(positions)@.len(),
            positions@.len() == old(positions)@.len(),
            moves@.len() == old(positions)@.len(),
            dt_ms <= DT_LIMIT_MS,
            forall|l: int| 0 <= l < moves@.len() ==> (#[trigger] moves@[l]).velocity.is_velocity(),
            forall|l: int| k <= l < n ==> #[trigger] positions@[l] == old(positions)@[l],
            forall|l: int| k <= l < n ==> (#[trigger] positions@[l]).in_world(),
            forall|l: int|
                0 <= l < k
                    ==> (#[trigger] positions@[l]).x == old(positions)@[l].x
                        + moves@[l].velocity.x * dt_ms
                    && positions@[l].y == old(positions)@[l].y + moves@[l].velocity.y * dt_ms,
        decreases n - k,
    {
        positions[k] = linear_step(positions[k], moves[k].velocity, dt_ms);
        k += 1;
    }
}

/// `i` points at the enemy a homing entity at `from` locks onto: no enemy
/// is strictly nearer, and among equally near enemies `i` is the last.
pub open spec fn nearest_enemy_from(from: Vec2i, enemies: Seq<Vec2i>, i: int) -> bool {
    &&& 0 <= i < enemies.len()
    &&& forall|j: int|
        0 <= j < enemies.len()
            ==> dist_sq(from, enemies[i]) <= dist_sq(from, #[trigger] enemies[j])
    &&& forall|j: int|
        i < j < enemies.len() ==> dist_sq(from, enemies[i]) < dist_sq(from, #[trigger] enemies[j])
}

/// Picks the enemy nearest to `from`, or `None` when there is none.
pub fn nearest_enemy(from: Vec2i, enemies: &Vec<Vec2i>) -> (r: Option<usize>)
    requires
        from.in_world(),
        forall|j: int| 0 <= j < enemies@.len() ==> (#[trigger] enemies@[j]).in_world(),
    ensures
        match r {
            None => enemies@.len() == 0,
            Some(i) => nearest_enemy_from(from, enemies@, i as int),
        },
{
    if enemies.len() == 0 {
        return None;
    }
    let mut best: usize = 0;
    let mut best_d: i128 = dist_sq_i128(from, enemies[0]);
    let mut j: usize = 1;
    while j < enemies.len()
        invariant
            1 <= j <= enemies@.len(),
            best < j,
            from.in_world(),
            forall|l: int| 0 <= l < enemies@.len() ==> (#[trigger] enemies@[l]).in_world(),
            best_d == dist_sq(from, enemies@[best as int]),
            forall|l: int| 0 <= l < j ==> best_d <= dist_sq(from, #[trigger] enemies@[l]),
            forall|l: int| best < l < j ==> best_d < dist_sq(from, #[trigger] enemies@[l]),
        decreases enemies@.len() - j,
    {
        let d = dist_sq_i128(from, enemies[j]);
        if d <= best_d {
            best = j;
            best_d = d;
        }
        j += 1;
    }
    Some(best)
}

/// Locks every homing entity onto its nearest enemy; the engine shell
/// then turns each entity towards the chosen target.
pub fn rotate_homing_entities_towards_nearest_enemies(
    particles: &Vec<Vec2i>,
    enemies: &Vec<Vec2i>,
) -> (t: Vec<Option<usize>>)
    requires
        forall|k: int| 0 <= k < particles@.len() ==> (#[trigger] particles@[k]).in_world(),
        forall|j: int| 0 <= j < enemies@.len() ==> (#[trigger] enemies@[j]).in_world(),
    ensures
        t@.len() == particles@.len(),
        forall|k: int|
            0 <= k < particles@.len() ==> match #[trigger] t@[k] {
                None => enemies@.len() == 0,
                Some(i) => nearest_enemy_from(particles@[k], enemies@, i as int),
            },
{
    let mut t: Vec<Option<usize>> = Vec::new();
    let mut k: usize = 0;
    while k < particles.len()
        invariant
            k <= particles@.len(),
            t@.len() == k,
            forall|l: int| 0 <= l < particles@.len() ==> (#[trigger] particles@[l]).in_world(),
            forall|j: int| 0 <= j < enemies@.len() ==> (#[trigger] enemies@[j]).in_world(),
            forall|l: int|
                0 <= l < k ==> match #[trigger] t@[l] {
                    None => enemies@.len() == 0,
                    Some(i) => nearest_enemy_from(particles@[l], enemies@, i as int),
                },
        decreases particles@.len() - k,
    {
        t.push(nearest_enemy(particles[k], enemies));
        k += 1;
    }
    t
}

/// The per-entity outcome of one expiry pass: a countdown that had run
/// down is left alone (its entity despawns), any other advances by `dt_ms`.
pub open spec fn expiry_outcome(
    t0: ParticleLifetime,
    t1: ParticleLifetime,
    dt_ms: u32,
) -> bool {
    if t0.spec_finished() {
        t1 == t0
    } else {
        spec_ticked(t0, t1, dt_ms)
    }
}

/// Flags every entity whose lifetime has expired for despawning and
/// ticks the countdown of the rest.
pub fn despawn_entity_after_duration_expires(
    lifetimes: &mut Vec<ParticleLifetime>,
    dt_ms: u32,
) -> (despawn: Vec<bool>)
    ensures
        final(lifetimes)@.len() == old(lifetimes)@.len(),
        despawn@.len() == old(lifetimes)@.len(),
        forall|k: int|
            0 <= k < old(lifetimes)@.len()
                ==> #[trigger] despawn@[k] == old(lifetimes)@[k].spec_finished(),
        forall|k: int|
            0 <= k < old(lifetimes)@.len()
                ==> expiry_outcome(old(lifetimes)@[k], #[trigger] final(lifetimes)@[k], dt_ms),
{
    let n = lifetimes.len();
    let mut despawn: Vec<bool> = Vec::new();
    let mut k: usize = 0;
    while k < n
        invariant
            k <= n,
            n == old(lifetimes)@.len(),
            lifetimes@.len() == old(lifetimes)@.len(),
            despawn@.len() == k,
            forall|l: int| k <= l < n ==> #[trigger] lifetimes@[l] == old(lifetimes)@[l],
            forall|l: int|
                0 <= l < k ==> #[trigger] despawn@[l] == old(lifetimes)@[l].spec_finished(),
            forall|l: int|
                0 <= l < k
                    ==> expiry_outcome(old(lifetimes)@[l], #[trigger] lifetimes@[l], dt_ms),
        decreases n - k,
    {
        if lifetimes[k].finished() {
            despawn.push(true);
        } else {
            lifetimes[k].tick(dt_ms);
            despawn.push(false);
        }
        k += 1;
    }
    despawn
}

} // verus!
