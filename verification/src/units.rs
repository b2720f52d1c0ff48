//! Fixed-point lengths, positions and speeds.
//!
//! Every length, position and speed of the game is a whole number of
//! millionths of a world unit, held in an `i64`: `UNIT` stands for one world
//! unit, `UNIT / 2` for half of one. Speeds are per second. The rules only
//! compare, negate and halve such values, so they are exact on them.

use vstd::prelude::*;

verus! {

/// One world unit.
pub const UNIT: i64 = 1_000_000;

/// Half of `x`, rounded toward zero, so that `spec_half(-x) == -spec_half(x)`.
pub open spec fn spec_half(x: int) -> int {
    if x >= 0 {
        x / 2
    } else {
        -((-x) / 2)
    }
}

/// Half of `x`, rounded toward zero.
pub fn half(x: i64) -> (h: i64)
    ensures
        h == spec_half(x as int),
{
    x / 2
}

/// A point or a velocity in the plane of the play field.
#[derive(Clone, Copy, Debug, PartialEq, Eq, Structural)]
pub struct Vec2 {
    pub x: i64,
    pub y: i64,
}

impl Vec2 {
    pub fn new(x: i64, y: i64) -> (v: Vec2)
        ensures
            v == (Vec2 { x, y }),
    {
        Vec2 { x, y }
    }
}

/// Where an entity is placed; `z` orders what is drawn at one spot.
#[derive(Clone, Copy, Debug, PartialEq, Eq, Structural)]
pub struct Vec3 {
    pub x: i64,
    pub y: i64,
    pub z: i64,
}

impl Vec3 {
    pub fn new(x: i64, y: i64, z: i64) -> (v: Vec3)
        ensures
            v == (Vec3 { x, y, z }),
    {
        Vec3 { x, y, z }
    }
}

} // verus!
