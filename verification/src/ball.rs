//! The ball, and the limit on how fast it may cross the field.

use crate::body::{CoefficientCombine, Collider, LockedAxes, Restitution, RigidBody};
use crate::paddle::BASE_SIZE;
use crate::units::{Vec2, Vec3, UNIT};
use vstd::prelude::*;

verus! {

pub const BALL_SIZE: i64 = BASE_SIZE;

pub const BALL_DEFAULT_SPEED: i64 = 50 * UNIT;

/// The largest horizontal speed that the ball keeps, in either direction.
pub const BALL_MAX_VELOCITY: i64 = 400 * UNIT;

/// The horizontal velocity with which the ball is served.
pub const BALL_SERVE_VELOCITY: i64 = 1000 * UNIT;

/// The bounciness asked of the physics engine for the ball.
pub const BALL_RESTITUTION: i64 = 3 * UNIT;

/// A horizontal velocity brought into the range from `-BALL_MAX_VELOCITY` to
/// `BALL_MAX_VELOCITY`, both ends included: the nearest value in the range.
pub open spec fn spec_limit(x: int) -> int {
    if x > BALL_MAX_VELOCITY {
        BALL_MAX_VELOCITY as int
    } else if x < -BALL_MAX_VELOCITY {
        -BALL_MAX_VELOCITY
    } else {
        x
    }
}

/// Clamps the horizontal part of `velocity`; the vertical part is left as it is.
pub fn limit_velocity(velocity: &mut Vec2)
    ensures
        final(velocity).x == spec_limit(old(velocity).x as int),
        final(velocity).y == old(velocity).y,
        -BALL_MAX_VELOCITY <= old(velocity).x <= BALL_MAX_VELOCITY ==> *final(velocity) == *old(
            velocity,
        ),
        old(velocity).x > BALL_MAX_VELOCITY ==> final(velocity).x == BALL_MAX_VELOCITY,
        old(velocity).x < -BALL_MAX_VELOCITY ==> final(velocity).x == -BALL_MAX_VELOCITY,
        -BALL_MAX_VELOCITY <= final(velocity).x <= BALL_MAX_VELOCITY,
{
    if velocity.x > BALL_MAX_VELOCITY {
        velocity.x = BALL_MAX_VELOCITY
    } else if velocity.x < -BALL_MAX_VELOCITY {
        velocity.x = -BALL_MAX_VELOCITY
    }
}

/// What the rules know of the ball.
#[derive(Clone, Copy, Debug, PartialEq, Eq, Structural)]
pub struct Ball {
    /// The ball's nominal speed. No rule reads it.
    pub speed: i64,
}

impl Default for Ball {
    fn default() -> (ball: Ball)
        ensures
            ball == (Ball { speed: BALL_DEFAULT_SPEED }),
    {
        Self { speed: BALL_DEFAULT_SPEED }
    }
}

/// The ball with all that the engine is told about it when it is spawned.
#[derive(Clone, Copy, Debug, PartialEq, Eq, Structural)]
pub struct BallBundle {
    pub ball: Ball,
    pub translation: Vec3,
    pub body: RigidBody,
    pub collider: Collider,
    pub velocity: Vec2,
    pub restitution: Restitution,
    pub axes: LockedAxes,
}

impl BallBundle {
    /// A square ball at `position`, served to the right, that bounces as
    /// the bouncier of two colliding bodies does and never spins.
    pub open spec fn spec_new(position: Vec3, size: i64) -> BallBundle {
        BallBundle {
            ball: Ball { speed: BALL_DEFAULT_SPEED },
            translation: position,
            body: RigidBody::Dynamic,
            collider: Collider { width: size, height: size },
            velocity: Vec2 { x: BALL_SERVE_VELOCITY, y: 0 },
            restitution: Restitution {
                coefficient: BALL_RESTITUTION,
                combine_rule: CoefficientCombine::Max,
            },
            axes: LockedAxes::spec_rotation_locked(),
        }
    }

    /// This bundle with the horizontal part of its velocity clamped.
    pub open spec fn spec_limit_velocity(self) -> BallBundle {
        BallBundle {
            velocity: Vec2 { x: spec_limit(self.velocity.x as int) as i64, y: self.velocity.y },
            ..self
        }
    }

    pub fn new(position: Vec3, size: i64) -> (bundle: BallBundle)
        ensures
            bundle == Self::spec_new(position, size),
    {
        return BallBundle {
            ball: Ball::default(),
            translation: position,
            body: RigidBody::Dynamic,
            collider: Collider::cuboid(size, size),
            velocity: Vec2::new(BALL_SERVE_VELOCITY, 0),
            restitution: Restitution {
                coefficient: BALL_RESTITUTION,
                combine_rule: CoefficientCombine::Max,
            },
            axes: LockedAxes::rotation_locked(),
        };
    }

    /// Clamps the ball's horizontal velocity and changes nothing else.
    pub fn limit_velocity(&mut self)
        ensures
            *final(self) == old(self).spec_limit_velocity(),
            final(self).velocity.x == spec_limit(old(self).velocity.x as int),
    {
        limit_velocity(&mut self.velocity);
    }
}

/// The limit yields a value within the bounds, keeps a value that is within
/// them, the bounds themselves included, and puts one beyond a bound on
/// that bound. Limiting twice is limiting once.
pub proof fn lemma_limit(x: int)
    ensures
        -BALL_MAX_VELOCITY <= spec_limit(x) <= BALL_MAX_VELOCITY,
        -BALL_MAX_VELOCITY <= x <= BALL_MAX_VELOCITY ==> spec_limit(x) == x,
        x > BALL_MAX_VELOCITY ==> spec_limit(x) == BALL_MAX_VELOCITY,
        x < -BALL_MAX_VELOCITY ==> spec_limit(x) == -BALL_MAX_VELOCITY,
        spec_limit(spec_limit(x)) == spec_limit(x),
{
}

/// Limiting the ball touches its horizontal velocity and nothing else.
pub proof fn lemma_limit_keeps_the_rest(bundle: BallBundle)
    ensures
        bundle.spec_limit_velocity().velocity.x == spec_limit(bundle.velocity.x as int),
        bundle.spec_limit_velocity().velocity.y == bundle.velocity.y,
        bundle.spec_limit_velocity().ball == bundle.ball,
        bundle.spec_limit_velocity().translation == bundle.translation,
        bundle.spec_limit_velocity().body == bundle.body,
        bundle.spec_limit_velocity().collider == bundle.collider,
        bundle.spec_limit_velocity().restitution == bundle.restitution,
        bundle.spec_limit_velocity().axes == bundle.axes,
{
}

} // verus!
