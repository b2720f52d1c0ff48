//! The paddles: where they stand, and how the keys steer them.

use crate::body::{Collider, RigidBody};
use crate::input::{Key, KeyState};
use crate::units::{half, spec_half, Vec2, Vec3, UNIT};
use crate::WINDOW_WIDTH;
use vstd::prelude::*;

verus! {

/// The speed of a paddle that was given none.
pub const PADDLE_DEFAULT_SPEED: i64 = 50 * UNIT;

/// The side of the square from which paddles and ball are built.
pub const BASE_SIZE: i64 = 25 * UNIT;

pub const PADDLE_WIDTH: i64 = BASE_SIZE;

pub const PADDLE_HEIGH: i64 = BASE_SIZE * 5;

/// The edge of the field that a paddle guards.
#[derive(Clone, Copy, Debug, PartialEq, Eq, Structural)]
pub enum PaddleSide {
    LEFT,
    RIGHT,
}

impl PaddleSide {
    /// The key that moves this side's paddle up.
    pub open spec fn spec_up_key(self) -> Key {
        match self {
            PaddleSide::LEFT => Key::W,
            PaddleSide::RIGHT => Key::Up,
        }
    }

    /// The key that moves this side's paddle down.
    pub open spec fn spec_down_key(self) -> Key {
        match self {
            PaddleSide::LEFT => Key::S,
            PaddleSide::RIGHT => Key::Down,
        }
    }

    /// Where the centre of this side's paddle stands on a field that is
    /// `field_width` wide and centred on zero: at the field's edge, moved
    /// inward by half of `paddle_width`.
    pub open spec fn spec_center_x(self, field_width: int, paddle_width: int) -> int {
        match self {
            PaddleSide::LEFT => -spec_half(field_width) + spec_half(paddle_width),
            PaddleSide::RIGHT => spec_half(field_width) - spec_half(paddle_width),
        }
    }

    pub fn up_key(&self) -> (key: Key)
        ensures
            key == self.spec_up_key(),
    {
        match self {
            PaddleSide::LEFT => Key::W,
            PaddleSide::RIGHT => Key::Up,
        }
    }

    pub fn down_key(&self) -> (key: Key)
        ensures
            key == self.spec_down_key(),
    {
        match self {
            PaddleSide::LEFT => Key::S,
            PaddleSide::RIGHT => Key::Down,
        }
    }

    /// The horizontal position of this side's paddle.
    pub fn center_x(&self, field_width: i64, paddle_width: i64) -> (x: i64)
        ensures
            x == self.spec_center_x(field_width as int, paddle_width as int),
    {
        match self {
            PaddleSide::LEFT => -half(field_width) + half(paddle_width),
            PaddleSide::RIGHT => half(field_width) - half(paddle_width),
        }
    }
}

/// What the rules know of a paddle.
#[derive(Clone, Copy, Debug, PartialEq, Eq, Structural)]
pub struct Paddle {
    /// How fast the paddle moves while a key is held; never negative.
    pub speed: i64,
    pub side: PaddleSide,
}

impl Paddle {
    /// The speed is not negative.
    pub open spec fn wf(&self) -> bool {
        0 <= self.speed
    }

    /// The vertical velocity that the held keys ask of this paddle: its own
    /// up key wins over its own down key, and no other key counts.
    pub open spec fn spec_velocity(&self, held: Set<Key>) -> int {
        if held.contains(self.side.spec_up_key()) {
            self.speed as int
        } else if held.contains(self.side.spec_down_key()) {
            -(self.speed as int)
        } else {
            0
        }
    }

    pub fn new(speed: i64, side: PaddleSide) -> (paddle: Paddle)
        requires
            0 <= speed,
        ensures
            paddle == (Paddle { speed, side }),
            paddle.wf(),
    {
        return Paddle { speed, side };
    }

    /// The vertical velocity of this paddle under `keys`.
    pub fn velocity(&self, keys: &KeyState) -> (v: i64)
        requires
            self.wf(),
        ensures
            v == self.spec_velocity(keys@),
            keys@.contains(self.side.spec_up_key()) ==> v == self.speed,
            !keys@.contains(self.side.spec_up_key()) && keys@.contains(self.side.spec_down_key())
                ==> v == -self.speed,
            !keys@.contains(self.side.spec_up_key()) && !keys@.contains(
                self.side.spec_down_key(),
            ) ==> v == 0,
    {
        if keys.pressed(self.side.up_key()) {
            self.speed
        } else if keys.pressed(self.side.down_key()) {
            -self.speed
        } else {
            0
        }
    }
}

impl Default for Paddle {
    fn default() -> (paddle: Paddle)
        ensures
            paddle == (Paddle { speed: PADDLE_DEFAULT_SPEED, side: PaddleSide::LEFT }),
            paddle.wf(),
    {
        Self { speed: PADDLE_DEFAULT_SPEED, side: PaddleSide::LEFT }
    }
}

/// A paddle with all that the engine is told about it when it is spawned.
#[derive(Clone, Copy, Debug, PartialEq, Eq, Structural)]
pub struct PaddleBundle {
    pub paddle: Paddle,
    pub translation: Vec3,
    pub body: RigidBody,
    pub collider: Collider,
    pub velocity: Vec2,
}

impl PaddleBundle {
    /// A resting paddle of the standard size at its side's edge of the
    /// standard field, level with the field's centre.
    pub open spec fn spec_new(speed: i64, side: PaddleSide) -> PaddleBundle {
        PaddleBundle {
            paddle: Paddle { speed, side },
            translation: Vec3 {
                x: side.spec_center_x(WINDOW_WIDTH as int, PADDLE_WIDTH as int) as i64,
                y: 0,
                z: 0,
            },
            body: RigidBody::Kinematic,
            collider: Collider { width: PADDLE_WIDTH, height: PADDLE_HEIGH },
            velocity: Vec2 { x: 0, y: 0 },
        }
    }

    /// This bundle with its vertical velocity replaced by what the held keys
    /// ask for. Nothing of the velocity it had before goes into the new one.
    pub open spec fn spec_steer(self, held: Set<Key>) -> PaddleBundle {
        PaddleBundle {
            velocity: Vec2 { x: self.velocity.x, y: self.paddle.spec_velocity(held) as i64 },
            ..self
        }
    }

    pub fn new(speed: i64, side: PaddleSide) -> (bundle: PaddleBundle)
        requires
            0 <= speed,
        ensures
            bundle == Self::spec_new(speed, side),
            bundle.paddle.wf(),
            bundle.translation.x == side.spec_center_x(WINDOW_WIDTH as int, PADDLE_WIDTH as int),
    {
        return PaddleBundle {
            paddle: Paddle::new(speed, side),
            translation: Vec3::new(side.center_x(WINDOW_WIDTH, PADDLE_WIDTH), 0, 0),
            body: RigidBody::Kinematic,
            collider: Collider::cuboid(PADDLE_WIDTH, PADDLE_HEIGH),
            velocity: Vec2::new(0, 0),
        };
    }

    /// Sets the vertical velocity from the keys, whatever it was before.
    pub fn steer(&mut self, keys: &KeyState)
        requires
            old(self).paddle.wf(),
        ensures
            *final(self) == old(self).spec_steer(keys@),
            final(self).velocity.y == old(self).paddle.spec_velocity(keys@),
    {
        self.velocity.y = self.paddle.velocity(keys);
    }
}

/// Steers every paddle by the keys held during this tick.
pub fn movement(keys: &KeyState, paddles: &mut Vec<PaddleBundle>)
    requires
        forall|i: int| 0 <= i < old(paddles)@.len() ==> old(paddles)@[i].paddle.wf(),
    ensures
        final(paddles)@.len() == old(paddles)@.len(),
        forall|i: int|
            0 <= i < old(paddles)@.len() ==> final(paddles)@[i] == old(paddles)@[i].spec_steer(
                keys@,
            ),
        forall|i: int|
            0 <= i < old(paddles)@.len() ==> final(paddles)@[i].velocity.y == old(
                paddles,
            )@[i].paddle.spec_velocity(keys@),
{
    let n = paddles.len();
    let mut i: usize = 0;
    while i < n
        invariant
            i <= n,
            n == paddles@.len(),
            n == old(paddles)@.len(),
            forall|j: int| 0 <= j < i ==> paddles@[j] == old(paddles)@[j].spec_steer(keys@),
            forall|j: int| i <= j < n ==> paddles@[j] == old(paddles)@[j],
            forall|j: int| 0 <= j < n ==> old(paddles)@[j].paddle.wf(),
        decreases n - i,
    {
        paddles[i].steer(keys);
        i += 1;
    }
}

/// The two paddles stand mirrored about the centre of the field, and the
/// outer edge of each lies on the field's edge: half a paddle outward from
/// the paddle's centre is half a field from the centre of the field.
pub proof fn lemma_paddles_stand_at_the_edges(field_width: int, paddle_width: int)
    ensures
        PaddleSide::LEFT.spec_center_x(field_width, paddle_width) == -PaddleSide::RIGHT.spec_center_x(
            field_width,
            paddle_width,
        ),
        PaddleSide::RIGHT.spec_center_x(field_width, paddle_width) + spec_half(paddle_width)
            == spec_half(field_width),
        PaddleSide::LEFT.spec_center_x(field_width, paddle_width) - spec_half(paddle_width)
            == -spec_half(field_width),
        field_width % 2 == 0 && paddle_width % 2 == 0 ==> 2 * PaddleSide::RIGHT.spec_center_x(
            field_width,
            paddle_width,
        ) == field_width - paddle_width,
{
}

/// A paddle whose up key is held moves up at its full speed, whether or not
/// its down key is held too.
pub proof fn lemma_up_key_wins(paddle: Paddle, held: Set<Key>)
    requires
        held.contains(paddle.side.spec_up_key()),
    ensures
        paddle.spec_velocity(held) == paddle.speed,
        paddle.spec_velocity(held.insert(paddle.side.spec_down_key())) == paddle.speed,
        paddle.spec_velocity(held.remove(paddle.side.spec_down_key())) == paddle.speed,
{
}

/// A paddle neither of whose keys is held stands still.
pub proof fn lemma_idle_paddle_rests(paddle: Paddle, held: Set<Key>)
    requires
        !held.contains(paddle.side.spec_up_key()),
        !held.contains(paddle.side.spec_down_key()),
    ensures
        paddle.spec_velocity(held) == 0,
{
}

/// Only a paddle's own two keys steer it: two sets of held keys that agree
/// on those two ask the same velocity of it. The other paddle's keys, and
/// keys that no paddle listens to, change nothing.
pub proof fn lemma_only_own_keys_count(paddle: Paddle, held: Set<Key>, other: Set<Key>)
    requires
        held.contains(paddle.side.spec_up_key()) == other.contains(paddle.side.spec_up_key()),
        held.contains(paddle.side.spec_down_key()) == other.contains(
            paddle.side.spec_down_key(),
        ),
    ensures
        paddle.spec_velocity(held) == paddle.spec_velocity(other),
{
}

/// Steering overwrites: the velocity that a paddle had before leaves no
/// trace in the one it gets, and steering leaves everything but the vertical
/// velocity as it was.
pub proof fn lemma_steer_overwrites(bundle: PaddleBundle, before: i64, held: Set<Key>)
    requires
        bundle.paddle.wf(),
    ensures
        (PaddleBundle {
            velocity: Vec2 { x: bundle.velocity.x, y: before },
            ..bundle
        }).spec_steer(held) == bundle.spec_steer(held),
        bundle.spec_steer(held).velocity.y == bundle.paddle.spec_velocity(held),
        bundle.spec_steer(held).velocity.x == bundle.velocity.x,
        bundle.spec_steer(held).paddle == bundle.paddle,
        bundle.spec_steer(held).translation == bundle.translation,
        bundle.spec_steer(held).body == bundle.body,
        bundle.spec_steer(held).collider == bundle.collider,
{
}

} // verus!
