//! What a physics engine is told about an entity when it is created.
//!
//! These are plain records. The rules of the game never read them back; they
//! say how the engine is to treat each body from then on.

use vstd::prelude::*;

verus! {

/// How the physics engine moves a body.
#[derive(Clone, Copy, Debug, PartialEq, Eq, Structural)]
pub enum RigidBody {
    /// Moved by forces and collisions.
    Dynamic,
    /// Moved only by the velocity that the game sets; collisions do not push it.
    Kinematic,
}

/// An axis-aligned rectangle that collides, centred on its entity.
#[derive(Clone, Copy, Debug, PartialEq, Eq, Structural)]
pub struct Collider {
    pub width: i64,
    pub height: i64,
}

impl Collider {
    pub fn cuboid(width: i64, height: i64) -> (collider: Collider)
        ensures
            collider == (Collider { width, height }),
    {
        Collider { width, height }
    }
}

/// How the coefficients of two colliding bodies become one.
#[derive(Clone, Copy, Debug, PartialEq, Eq, Structural)]
pub enum CoefficientCombine {
    Average,
    Min,
    Multiply,
    /// The larger of the two.
    Max,
}

/// How much of its speed a body keeps when it bounces.
#[derive(Clone, Copy, Debug, PartialEq, Eq, Structural)]
pub struct Restitution {
    pub coefficient: i64,
    pub combine_rule: CoefficientCombine,
}

/// Which motions collisions may not give a body.
#[derive(Clone, Copy, Debug, PartialEq, Eq, Structural)]
pub struct LockedAxes {
    pub translation_x: bool,
    pub translation_y: bool,
    pub rotation: bool,
}

impl LockedAxes {
    /// Free to be pushed along both axes, never to spin.
    pub open spec fn spec_rotation_locked() -> LockedAxes {
        LockedAxes { translation_x: false, translation_y: false, rotation: true }
    }

    pub fn rotation_locked() -> (axes: LockedAxes)
        ensures
            axes == Self::spec_rotation_locked(),
    {
        LockedAxes { translation_x: false, translation_y: false, rotation: true }
    }
}

} // verus!
