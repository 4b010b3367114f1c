//! Verified core of a small top-down tank-shooter prototype.
//!
//! The library holds the per-frame gameplay rules — enemy idle-wander,
//! homing-projectile target selection, linear movement, lifetime expiry
//! and collision-to-damage resolution — as pure functions over an exact
//! integer model of the world.  Positions and sizes are measured in
//! microunits (one millionth of a world unit), velocities in milliunits
//! per second, and time in milliseconds, so that one movement step is the
//! exact product `velocity * elapsed_ms` with no rounding anywhere.
//!
//! Everything the host engine owns — rendering, input routing, the entity
//! store and the frame loop — stays outside; the engine-facing shell calls
//! into these functions with plain values and applies the decisions they
//! return.

pub mod collision;
pub mod enemy;
pub mod enemy_ai;
pub mod geom;
pub mod lifetime;
pub mod player;
pub mod player_input;
pub mod projectiles;
pub mod shared;
pub mod spawner;
