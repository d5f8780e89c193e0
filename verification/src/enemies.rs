use vstd::prelude::*;
use crate::units::Vec2;

pub mod giant;

verus! {

/// Which way an enemy looks, and so which way it is launched.
#[derive(Clone, Copy, Debug, PartialEq, Eq, Structural)]
pub enum Facing {
    Left,
    Right,
}

impl Facing {
    /// The sign that mirrors a horizontal quantity: -1 to the left, +1 to the
    /// right.
    pub open spec fn sign(self) -> int {
        match self {
            Facing::Left => -1,
            Facing::Right => 1,
        }
    }

    pub fn multiplier(self) -> (m: i32)
        ensures
            m == self.sign(),
    {
        match self {
            Facing::Left => -1,
            Facing::Right => 1,
        }
    }

    /// The facing a coin toss gives: left on `true`.
    pub fn from_coin(toss: bool) -> (f: Facing)
        ensures
            f == (if toss {
                Facing::Left
            } else {
                Facing::Right
            }),
    {
        if toss {
            Facing::Left
        } else {
            Facing::Right
        }
    }
}

/// What every damageable actor carries. `health` is lowered by the physics
/// side; this crate only acts when it is found at or below zero.
#[derive(Clone, Copy, Debug, PartialEq, Eq, Structural)]
pub struct Enemy {
    pub health: i32,
    pub facing: Facing,
}

/// The impulse chosen at spawn time for the first hop.
#[derive(Clone, Copy, Debug, PartialEq, Eq, Structural)]
pub struct Hop {
    pub grounded: bool,
    pub power: Vec2,
}

/// How long an explosion lasts, in milliseconds.
pub const EXPLOSION_LIFETIME_MS: u32 = 500;

/// A short-lived area effect. `power` is in health points.
#[derive(Clone, Copy, Debug, PartialEq, Eq, Structural)]
pub struct Explosion {
    pub power: u32,
    pub lifetime_ms: u32,
}

/// Everything an explosion is spawned with. `position` is in thousandths;
/// `size` (the edge of its square sprite) and `radius` (of its collision
/// sphere) are in whole world units, one per point of power.
#[derive(Clone, Copy, Debug, PartialEq, Eq, Structural)]
pub struct ExplosionBundle {
    pub position: Vec2,
    pub size: u64,
    pub radius: u32,
    pub explosion: Explosion,
}

/// The distance of `h` from zero.
pub open spec fn magnitude(h: int) -> int {
    if h < 0 {
        -h
    } else {
        h
    }
}

/// The explosion that an enemy leaves which died at `position` with `health`.
pub open spec fn explosion_of(health: i32, position: Vec2) -> ExplosionBundle {
    ExplosionBundle {
        position,
        size: (2 * magnitude(health as int)) as u64,
        radius: magnitude(health as int) as u32,
        explosion: Explosion {
            power: magnitude(health as int) as u32,
            lifetime_ms: EXPLOSION_LIFETIME_MS,
        },
    }
}

/// An enemy dies on a frame on which its health was touched and is found at
/// or below zero.
pub open spec fn is_dying(enemy: Enemy, changed: bool) -> bool {
    changed && enemy.health <= 0
}

/// The distance of `health` from zero; never negative, whatever the input.
pub fn power_of(health: i32) -> (p: u32)
    ensures
        p == magnitude(health as int),
{
    if health >= 0 {
        health as u32
    } else if health == i32::MIN {
        2147483648u32
    } else {
        (-health) as u32
    }
}

impl ExplosionBundle {
    /// The explosion of an enemy that died at `position` with `health`.
    pub fn new(health: i32, position: Vec2) -> (b: ExplosionBundle)
        ensures
            b == explosion_of(health, position),
            b.explosion.power == magnitude(health as int),
            b.radius == magnitude(health as int),
            b.size == 2 * magnitude(health as int),
    {
        let power = power_of(health);
        let wide: u64 = power as u64;
        ExplosionBundle {
            position,
            size: 2 * wide,
            radius: power,
            explosion: Explosion { power, lifetime_ms: EXPLOSION_LIFETIME_MS },
        }
    }
}

impl Enemy {
    /// Decides the fate of one enemy on one frame: `Some` explosion exactly
    /// when it dies, sized by how far its health fell.
    pub fn death(&self, changed: bool, position: Vec2) -> (r: Option<ExplosionBundle>)
        ensures
            r == (if is_dying(*self, changed) {
                Some(explosion_of(self.health, position))
            } else {
                None
            }),
            r.is_some() ==> r.unwrap().explosion.power == magnitude(self.health as int)
                && r.unwrap().radius == magnitude(self.health as int) && r.unwrap().size == 2
                * magnitude(self.health as int) && r.unwrap().position == position,
    {
        if changed && self.health <= 0 {
            Some(ExplosionBundle::new(self.health, position))
        } else {
            None
        }
    }
}

} // verus!
