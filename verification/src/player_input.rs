//! Player input: the key map, and what pressed keys and the fire button
//! do each frame.

use vstd::prelude::*;

use crate::collision::{Collider, CollisionMask};
use crate::geom::Vec2i;
use crate::player::PlayerAction;
use crate::projectiles::{projectile_spawn_record, ProjectileSpawn};
use crate::shared::Movable;

verus! {

/// Speed of a cannon projectile, in world units per second.
pub const PROJECTILE_SPEED: i64 = 100;

/// Lifetime of a cannon projectile, in milliseconds.
pub const PROJECTILE_LIFETIME_MS: u32 = 20_000;

/// Side length, in microunits, of a cannon projectile's box.
pub const PROJECTILE_SIZE: i64 = 20_000_000;

/// A physical input the player may press.
#[derive(Clone, Copy, PartialEq, Eq, Structural, Hash, Debug)]
pub enum InputButton {
    KeyW,
    KeyS,
    KeyA,
    KeyD,
    MouseLeft,
}

/// The fixed key map, as a sequence of button-action pairs.
pub open spec fn input_map_record(m: Seq<(InputButton, PlayerAction)>) -> bool {
    &&& m.len() == 5
    &&& m[0] == (InputButton::KeyW, PlayerAction::MoveForward)
    &&& m[1] == (InputButton::KeyS, PlayerAction::MoveBackwards)
    &&& m[2] == (InputButton::KeyA, PlayerAction::TurnLeft)
    &&& m[3] == (InputButton::KeyD, PlayerAction::TurnRight)
    &&& m[4] == (InputButton::MouseLeft, PlayerAction::FireCannon)
}

/// The fixed key map: which button drives which action.
pub fn get_input_manager() -> (m: Vec<(InputButton, PlayerAction)>)
    ensures
        input_map_record(m@),
{
    let mut m: Vec<(InputButton, PlayerAction)> = Vec::new();
    m.push((InputButton::KeyW, PlayerAction::MoveForward));
    m.push((InputButton::KeyS, PlayerAction::MoveBackwards));
    m.push((InputButton::KeyA, PlayerAction::TurnLeft));
    m.push((InputButton::KeyD, PlayerAction::TurnRight));
    m.push((InputButton::MouseLeft, PlayerAction::FireCannon));
    m
}

/// Marker for projectiles that steer towards the nearest enemy.
#[derive(Clone, Copy, PartialEq, Eq, Structural, Debug)]
pub struct HomeTowardsEnemies {}

impl HomeTowardsEnemies {
    pub fn home_towards_nearest_enemy() -> (h: HomeTowardsEnemies) {
        HomeTowardsEnemies {}
    }
}

/// What one frame of movement input amounts to.
#[derive(Clone, Copy, PartialEq, Eq, Structural, Debug)]
pub struct MoveCommand {
    /// Net drive along the facing direction, in world units per second;
    /// negative is backwards.
    pub advance_speed: i64,
    /// Net turn rate, in hundredths of a degree per second; negative is
    /// clockwise.
    pub turn_rate_cdeg: i64,
}

/// Resolves the four movement keys into a net drive and turn command.
/// Opposed keys cancel out.
pub fn handle_player_movement(
    move_forward: bool,
    move_backwards: bool,
    turn_left: bool,
    turn_right: bool,
    movable: &Movable,
) -> (c: MoveCommand)
    requires
        0 <= movable.speed,
        0 <= movable.rotation_speed_cdeg,
    ensures
        c.advance_speed == (if move_forward {
            movable.speed as int
        } else {
            0int
        }) - (if move_backwards {
            movable.speed as int
        } else {
            0int
        }),
        c.turn_rate_cdeg == (if turn_left {
            movable.rotation_speed_cdeg as int
        } else {
            0int
        }) - (if turn_right {
            movable.rotation_speed_cdeg as int
        } else {
            0int
        }),
{
    let advance_speed: i64 = if move_forward && !move_backwards {
        movable.speed
    } else if move_backwards && !move_forward {
        -movable.speed
    } else {
        0
    };
    let turn_rate_cdeg: i64 = if turn_left && !turn_right {
        movable.rotation_speed_cdeg
    } else if turn_right && !turn_left {
        -movable.rotation_speed_cdeg
    } else {
        0
    };
    MoveCommand { advance_speed, turn_rate_cdeg }
}

/// On the frame the fire button is pressed, the turret launches two
/// projectiles from its position along its facing: one that flies
/// straight and one that homes in on enemies.
pub fn handle_player_firing(
    just_pressed_fire: bool,
    turret_pos: Vec2i,
    turret_dir: Vec2i,
) -> (shots: Vec<ProjectileSpawn>)
    ensures
        !just_pressed_fire ==> shots@.len() == 0,
        just_pressed_fire ==> {
            &&& shots@.len() == 2
            &&& projectile_spawn_record(
                shots@[0],
                turret_pos,
                turret_dir,
                PROJECTILE_SPEED,
                PROJECTILE_LIFETIME_MS,
                (Vec2i { x: PROJECTILE_SIZE, y: PROJECTILE_SIZE }),
                false,
            )
            &&& projectile_spawn_record(
                shots@[1],
                turret_pos,
                turret_dir,
                PROJECTILE_SPEED,
                PROJECTILE_LIFETIME_MS,
                (Vec2i { x: PROJECTILE_SIZE, y: PROJECTILE_SIZE }),
                true,
            )
        },
{
    let mut shots: Vec<ProjectileSpawn> = Vec::new();
    if just_pressed_fire {
        shots.push(create_liniar_particle(turret_pos, turret_dir));
        let mut mask: Vec<CollisionMask> = Vec::new();
        mask.push(CollisionMask::ENEMY);
        let homing = ProjectileSpawn {
            pos: turret_pos,
            dir: turret_dir,
            speed: PROJECTILE_SPEED,
            lifetime_ms: PROJECTILE_LIFETIME_MS,
            size: Vec2i { x: PROJECTILE_SIZE, y: PROJECTILE_SIZE },
            collider: Collider::new(mask),
            homing: true,
        };
        proof {
            assert(homing.collider.collision_mask@ =~= seq![CollisionMask::ENEMY]);
        }
        shots.push(homing);
    }
    shots
}

/// One straight-flying cannon projectile from the turret's position
/// along its facing.
fn create_liniar_particle(turret_pos: Vec2i, turret_dir: Vec2i) -> (p: ProjectileSpawn)
    ensures
        projectile_spawn_record(
            p,
            turret_pos,
            turret_dir,
            PROJECTILE_SPEED,
            PROJECTILE_LIFETIME_MS,
            (Vec2i { x: PROJECTILE_SIZE, y: PROJECTILE_SIZE }),
            false,
        ),
{
    let mut mask: Vec<CollisionMask> = Vec::new();
    mask.push(CollisionMask::ENEMY);
    let p = ProjectileSpawn {
        pos: turret_pos,
        dir: turret_dir,
        speed: PROJECTILE_SPEED,
        lifetime_ms: PROJECTILE_LIFETIME_MS,
        size: Vec2i { x: PROJECTILE_SIZE, y: PROJECTILE_SIZE },
        collider: Collider::new(mask),
        homing: false,
    };
    proof {
        assert(p.collider.collision_mask@ =~= seq![CollisionMask::ENEMY]);
    }
    p
}

} // verus!
