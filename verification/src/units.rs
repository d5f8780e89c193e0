use vstd::prelude::*;

verus! {

/// How many steps of the fixed-point scale make one world unit.
pub const UNIT: i32 = 1000;

/// A point or direction in the plane, each component in thousandths of a
/// world unit.
#[derive(Clone, Copy, Debug, PartialEq, Eq, Structural)]
pub struct Vec2 {
    pub x: i32,
    pub y: i32,
}

impl Vec2 {
    pub fn new(x: i32, y: i32) -> (v: Vec2)
        ensures
            v.x == x,
            v.y == y,
    {
        Vec2 { x, y }
    }
}

/// Density, friction and restitution of a body, in thousandths.
#[derive(Clone, Copy, Debug, PartialEq, Eq, Structural)]
pub struct PhysicMaterial {
    pub density: i32,
    pub friction: i32,
    pub restitution: i32,
}

} // verus!
