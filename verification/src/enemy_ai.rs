//! Idle-wander behaviour: an enemy waits out a delay, walks towards its
//! current idle target, and picks a fresh nearby target once it arrives.

use vstd::prelude::*;

use crate::geom::{dist_sq, dist_sq_i128, Vec2i};
use crate::lifetime::{spec_ticked, ParticleLifetime};
use crate::shared::Movable;

verus! {

/// How close, in microunits, an idler must get to its target to count
/// as arrived.
pub const IDLE_ARRIVE_DISTANCE: i64 = 40_000_000;

/// Delay between two idle walks, in milliseconds.
pub const IDLE_DELAY_MS: u32 = 4_000;

/// Nominal reach, in world units, of one idle walk.
pub const IDLE_WALK_DISTANCE: i64 = 200;

/// Largest magnitude, in microunits, a freshly drawn idle offset
/// component may take.
pub const MAX_IDLE_OFFSET: i64 = 1_000_000_000;

/// Idle-wander state: a delay between walks and the point currently
/// walked towards.
#[derive(Clone, Copy, PartialEq, Eq, Structural, Debug)]
pub struct Idle {
    pub delay: ParticleLifetime,
    pub idle_move: Vec2i,
    pub idle_walk_distance: i64,
}

impl Default for Idle {
    /// At rest: a four-second delay, aiming at the origin.
    fn default() -> (s: Idle)
        ensures
            s.delay.duration_ms == IDLE_DELAY_MS,
            s.delay.elapsed_ms == 0,
            s.idle_move == (Vec2i { x: 0, y: 0 }),
            s.idle_walk_distance == IDLE_WALK_DISTANCE,
    {
        Idle {
            delay: ParticleLifetime::new(IDLE_DELAY_MS),
            idle_move: Vec2i { x: 0, y: 0 },
            idle_walk_distance: IDLE_WALK_DISTANCE,
        }
    }
}

/// The idler stands close enough to its target to count as arrived.
pub open spec fn idle_arrived(pos: Vec2i, target: Vec2i) -> bool {
    dist_sq(pos, target) < IDLE_ARRIVE_DISTANCE * IDLE_ARRIVE_DISTANCE
}

/// What one step of idle behaviour asks the engine shell to do.
#[derive(Clone, Copy, PartialEq, Eq, Structural, Debug)]
pub enum IdleAction {
    /// Sit still; the delay is still running.
    Waiting,
    /// Walk towards `target` at `speed` world units per second.
    Moving { target: Vec2i, speed: i64 },
    /// Arrived: a fresh target was picked and the delay restarted.
    Retargeted,
}

/// One frame of idle-wander for one enemy.
///
/// While the delay runs it only ticks.  Once it has run out the enemy
/// walks towards its idle target; on arrival it shifts the target by
/// `new_offset` — a random draw made by the caller — and starts the
/// delay over.
pub fn idle_enemy_behaviour(
    idle: &mut Idle,
    pos: Vec2i,
    movable: &Movable,
    dt_ms: u32,
    new_offset: Vec2i,
) -> (a: IdleAction)
    requires
        pos.in_world(),
        old(idle).idle_move.in_world(),
        -MAX_IDLE_OFFSET <= new_offset.x <= MAX_IDLE_OFFSET,
        -MAX_IDLE_OFFSET <= new_offset.y <= MAX_IDLE_OFFSET,
    ensures
        final(idle).idle_walk_distance == old(idle).idle_walk_distance,
        !old(idle).delay.spec_finished() ==> {
            &&& a == IdleAction::Waiting
            &&& final(idle).idle_move == old(idle).idle_move
            &&& spec_ticked(old(idle).delay, final(idle).delay, dt_ms)
        },
        old(idle).delay.spec_finished() && !idle_arrived(pos, old(idle).idle_move) ==> {
            &&& a == (IdleAction::Moving { target: old(idle).idle_move, speed: movable.speed })
            &&& *final(idle) == *old(idle)
        },
        old(idle).delay.spec_finished() && idle_arrived(pos, old(idle).idle_move) ==> {
            &&& a == IdleAction::Retargeted
            &&& final(idle).idle_move.x == old(idle).idle_move.x + new_offset.x
            &&& final(idle).idle_move.y == old(idle).idle_move.y + new_offset.y
            &&& final(idle).delay.duration_ms == old(idle).delay.duration_ms
            &&& final(idle).delay.elapsed_ms == 0
        },
{
    if !idle.delay.finished() {
        idle.delay.tick(dt_ms);
        IdleAction::Waiting
    } else {
        let d = dist_sq_i128(pos, idle.idle_move);
        if d >= (IDLE_ARRIVE_DISTANCE as i128) * (IDLE_ARRIVE_DISTANCE as i128) {
            IdleAction::Moving { target: idle.idle_move, speed: movable.speed }
        } else {
            idle.idle_move = Vec2i { x: idle.idle_move.x + new_offset.x, y: idle.idle_move.y + new_offset.y };
            idle.delay.reset();
            IdleAction::Retargeted
        }
    }
}

} // verus!
