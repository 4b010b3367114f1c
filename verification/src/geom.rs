//! Integer plane geometry for the world model.
//!
//! A point or a size is a pair of `i64` microunit coordinates
//! (one world unit is `1_000_000` microunits).  A velocity is a pair of
//! milliunits per second, so that over `dt` milliseconds an entity moves
//! exactly `velocity * dt` microunits along each axis.

use vstd::prelude::*;

verus! {

/// Largest magnitude, in microunits, that a world coordinate may take.
pub const POS_LIMIT: i64 = 1_000_000_000_000_000;

/// Largest magnitude, in milliunits per second, that a velocity
/// component may take.
pub const VEL_LIMIT: i64 = 1_000_000_000;

/// Largest frame duration, in milliseconds, that a movement step accepts.
pub const DT_LIMIT_MS: u32 = 3_600_000;

/// A point, size or direction in the plane, in integer coordinates.
#[derive(Clone, Copy, PartialEq, Eq, Structural, Debug)]
pub struct Vec2i {
    pub x: i64,
    pub y: i64,
}

impl Vec2i {
    /// Both coordinates lie within the world bounds.
    pub open spec fn in_world(self) -> bool {
        -POS_LIMIT <= self.x <= POS_LIMIT && -POS_LIMIT <= self.y <= POS_LIMIT
    }

    /// Both components are small enough to serve as a velocity.
    pub open spec fn is_velocity(self) -> bool {
        -VEL_LIMIT <= self.x <= VEL_LIMIT && -VEL_LIMIT <= self.y <= VEL_LIMIT
    }
}

/// The squared distance between two points, as a mathematical integer.
pub open spec fn dist_sq(a: Vec2i, b: Vec2i) -> int {
    (a.x - b.x) * (a.x - b.x) + (a.y - b.y) * (a.y - b.y)
}

/// Computes the exact squared distance between two in-world points.
pub fn dist_sq_i128(a: Vec2i, b: Vec2i) -> (d: i128)
    requires
        a.in_world(),
        b.in_world(),
    ensures
        d == dist_sq(a, b),
        0 <= d,
{
    let dx: i128 = a.x as i128 - b.x as i128;
    let dy: i128 = a.y as i128 - b.y as i128;
    proof {
        assert(dx * dx <= 4_000_000_000_000_000_000_000_000_000_000i128
            && dy * dy <= 4_000_000_000_000_000_000_000_000_000_000i128
            && 0 <= dx * dx && 0 <= dy * dy) by (nonlinear_arith)
            requires
                -2_000_000_000_000_000 <= dx <= 2_000_000_000_000_000,
                -2_000_000_000_000_000 <= dy <= 2_000_000_000_000_000,
        ;
    }
    dx * dx + dy * dy
}

/// Moves a point by `vel * dt_ms`: one exact linear-movement step.
pub fn linear_step(pos: Vec2i, vel: Vec2i, dt_ms: u32) -> (p: Vec2i)
    requires
        pos.in_world(),
        vel.is_velocity(),
        dt_ms <= DT_LIMIT_MS,
    ensures
        p.x == pos.x + vel.x * dt_ms,
        p.y == pos.y + vel.y * dt_ms,
{
    proof {
        assert(-3_600_000_000_000_000i128 <= (vel.x as i128) * (dt_ms as i128)
            <= 3_600_000_000_000_000i128
            && -3_600_000_000_000_000i128 <= (vel.y as i128) * (dt_ms as i128)
            <= 3_600_000_000_000_000i128) by (nonlinear_arith)
            requires
                -1_000_000_000 <= vel.x as i128 <= 1_000_000_000,
                -1_000_000_000 <= vel.y as i128 <= 1_000_000_000,
                0 <= dt_ms as i128 <= 3_600_000,
        ;
    }
    let x: i128 = pos.x as i128 + vel.x as i128 * dt_ms as i128;
    let y: i128 = pos.y as i128 + vel.y as i128 * dt_ms as i128;
    Vec2i { x: x as i64, y: y as i64 }
}

} // verus!
