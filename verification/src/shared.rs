//! Components shared by every entity kind: a display name, movement
//! parameters and hit points.

use vstd::prelude::*;

use crate::geom::Vec2i;

verus! {

/// Side length, in microunits, of the default square entity box.
pub const DEFAULT_ENTITY_SIZE: i64 = 64_000_000;

/// Human-readable name shown in spawn logs.
pub struct DisplayName(pub String);

/// Walking speed an entity starts with, in world units per second.
pub const DEFAULT_SPEED: i64 = 20;

/// Turn rate an entity starts with, in hundredths of a degree per second.
pub const DEFAULT_ROTATION_SPEED_CDEG: i64 = 2_000;

/// How fast an entity may translate and turn.
///
/// `speed` is in world units per second; `rotation_speed_cdeg` is in
/// hundredths of a degree per second.
#[derive(Clone, Copy, PartialEq, Eq, Structural, Debug)]
pub struct Movable {
    pub speed: i64,
    pub rotation_speed_cdeg: i64,
}

impl Default for Movable {
    /// A slow walker: 20 units per second, 20 degrees per second.
    fn default() -> (m: Movable)
        ensures
            m.speed == DEFAULT_SPEED,
            m.rotation_speed_cdeg == DEFAULT_ROTATION_SPEED_CDEG,
    {
        Movable { speed: DEFAULT_SPEED, rotation_speed_cdeg: DEFAULT_ROTATION_SPEED_CDEG }
    }
}

/// What every entity carries at spawn: a name and its box size.
pub struct EntitySharedBundle {
    pub name: DisplayName,
    pub size: Vec2i,
}

impl Default for EntitySharedBundle {
    fn default() -> (b: EntitySharedBundle)
        ensures
            b.name.0@ == "Unnamed Entity"@,
            b.size == (Vec2i { x: DEFAULT_ENTITY_SIZE, y: DEFAULT_ENTITY_SIZE }),
    {
        EntitySharedBundle {
            name: DisplayName("Unnamed Entity".to_owned()),
            size: Vec2i { x: DEFAULT_ENTITY_SIZE, y: DEFAULT_ENTITY_SIZE },
        }
    }
}

/// Hit points, bounded by the maximum the entity was created with.
#[derive(Clone, Copy, PartialEq, Eq, Structural, Debug)]
pub struct Health {
    pub max_health: u16,
    pub current_health: u16,
}

impl Health {
    /// Current hit points never exceed the maximum.
    pub open spec fn wf(self) -> bool {
        self.current_health <= self.max_health
    }

    /// A fresh entity starts at full health.
    pub fn new(initial_health: u16) -> (h: Health)
        ensures
            h.max_health == initial_health,
            h.current_health == initial_health,
            h.wf(),
    {
        Health { max_health: initial_health, current_health: initial_health }
    }

    /// Subtracts `damage` from the current hit points if they cover it,
    /// and reports the remainder — but only while the entity stays alive.
    ///
    /// Returns `Some(rest)` exactly when the damage was absorbed with
    /// `rest > 0` hit points to spare; returns `None` both when the
    /// damage would overshoot (hit points are then left untouched) and
    /// when it lands exactly on zero (hit points are then spent).
    pub fn try_apply_damage(&mut self, damage: u16) -> (r: Option<u16>)
        ensures
            final(self).max_health == old(self).max_health,
            final(self).current_health == if damage <= old(self).current_health {
                (old(self).current_health - damage) as u16
            } else {
                old(self).current_health
            },
            r == if damage < old(self).current_health {
                Some((old(self).current_health - damage) as u16)
            } else {
                None::<u16>
            },
            old(self).wf() ==> final(self).wf(),
    {
        if let Some(new_health) = self.current_health.checked_sub(damage) {
            self.current_health = new_health;

            if self.current_health > 0 {
                return Some(new_health);
            }
        }

        None
    }
}

} // verus!
