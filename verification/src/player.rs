//! The player-controlled tank and its spawn-time data.

use vstd::prelude::*;

use crate::geom::Vec2i;
use crate::shared::Movable;

verus! {

/// Driving speed of the tank, in world units per second.
pub const TANK_SPEED: i64 = 100;

/// Turn rate of the tank, in hundredths of a degree per second.
pub const TANK_ROTATION_SPEED_CDEG: i64 = 8_000;

/// Width, in microunits, of the tank body box.
pub const TANK_BODY_WIDTH: i64 = 64_000_000;

/// Height, in microunits, of the tank body box.
pub const TANK_BODY_HEIGHT: i64 = 64_000_000;

/// Everything the player can ask of the tank.
#[derive(Clone, Copy, PartialEq, Eq, Structural, Hash, Debug)]
pub enum PlayerAction {
    MoveForward,
    MoveBackwards,
    TurnLeft,
    TurnRight,
    FireCannon,
}

/// Marker for the entity the player drives.
#[derive(Clone, Copy, PartialEq, Eq, Structural, Debug)]
pub struct PlayerControlled;

/// Marker for the entity that follows the mouse cursor.
#[derive(Clone, Copy, PartialEq, Eq, Structural, Debug)]
pub struct MouseControlled;

/// The tank body and its box size.
#[derive(Clone, Copy, PartialEq, Eq, Structural, Debug)]
pub struct TankBodyBundle {
    pub size: Vec2i,
}

impl Default for TankBodyBundle {
    fn default() -> (b: TankBodyBundle)
        ensures
            b.size == (Vec2i { x: TANK_BODY_WIDTH, y: TANK_BODY_HEIGHT }),
    {
        TankBodyBundle { size: Vec2i { x: TANK_BODY_WIDTH, y: TANK_BODY_HEIGHT } }
    }
}

/// What the player's tank is made of when it spawns.
#[derive(Clone, Copy, PartialEq, Eq, Structural, Debug)]
pub struct TankBundle {
    pub movable: Movable,
    pub tank_body: TankBodyBundle,
}

impl TankBundle {
    /// A tank that drives at a hundred units per second and turns at
    /// eighty degrees per second.
    pub fn new() -> (t: TankBundle)
        ensures
            t.movable.speed == TANK_SPEED,
            t.movable.rotation_speed_cdeg == TANK_ROTATION_SPEED_CDEG,
            t.tank_body.size == (Vec2i { x: TANK_BODY_WIDTH, y: TANK_BODY_HEIGHT }),
    {
        TankBundle {
            movable: Movable { speed: TANK_SPEED, rotation_speed_cdeg: TANK_ROTATION_SPEED_CDEG },
            tank_body: TankBodyBundle::default(),
        }
    }
}

} // verus!
