//! The match: two paddles and a ball, and what one tick does to them.
//!
//! Within a tick the rules do two things. Before the physics engine moves
//! the bodies they set the paddles' velocities from the keys
//! (`World::steer_paddles`), and after it has moved them they clamp the
//! velocity that it left the ball with (`World::limit_ball`). A host whose
//! physics step runs between two frames calls `simulate_tick` once per
//! frame, which does both. The rules never move anything: positions belong
//! to the physics engine.

use crate::ball::{lemma_limit, spec_limit, BallBundle, BALL_MAX_VELOCITY, BALL_SIZE};
use crate::input::{held_keys, Key, KeyState};
use crate::paddle::{movement, PaddleBundle, PaddleSide};
use crate::units::{Vec3, UNIT};
use bevy::input::keyboard::KeyCode;
use bevy::input::Input;
use vstd::prelude::*;

verus! {

/// The speed with which both paddles of a match move.
pub const MATCH_PADDLE_SPEED: i64 = 10 * UNIT;

/// Everything that plays in a match.
#[derive(Clone, Debug, PartialEq, Eq)]
pub struct World {
    /// The left paddle, then the right one.
    pub paddles: Vec<PaddleBundle>,
    pub ball: BallBundle,
}

/// A `World` as the contracts speak of it.
pub struct WorldView {
    pub paddles: Seq<PaddleBundle>,
    pub ball: BallBundle,
}

impl View for World {
    type V = WorldView;

    open spec fn view(&self) -> WorldView {
        WorldView { paddles: self.paddles@, ball: self.ball }
    }
}

impl WorldView {
    /// There are exactly two paddles, the left one first, and neither has a
    /// negative speed.
    pub open spec fn wf(self) -> bool {
        &&& self.paddles.len() == 2
        &&& self.paddles[0].paddle.side == PaddleSide::LEFT
        &&& self.paddles[1].paddle.side == PaddleSide::RIGHT
        &&& self.paddles[0].paddle.wf()
        &&& self.paddles[1].paddle.wf()
    }

    /// The state in which a match begins: both paddles at rest at their
    /// edges, the ball in the centre and served.
    pub open spec fn start() -> WorldView {
        WorldView {
            paddles: seq![
                PaddleBundle::spec_new(MATCH_PADDLE_SPEED, PaddleSide::LEFT),
                PaddleBundle::spec_new(MATCH_PADDLE_SPEED, PaddleSide::RIGHT),
            ],
            ball: BallBundle::spec_new(Vec3 { x: 0, y: 0, z: 0 }, BALL_SIZE),
        }
    }

    /// This world with every paddle steered by the keys in `held`.
    pub open spec fn steer(self, held: Set<Key>) -> WorldView {
        WorldView {
            paddles: Seq::new(self.paddles.len(), |i: int| self.paddles[i].spec_steer(held)),
            ..self
        }
    }

    /// This world with the ball's horizontal velocity clamped.
    pub open spec fn limit(self) -> WorldView {
        WorldView { ball: self.ball.spec_limit_velocity(), ..self }
    }

    /// What one tick under the keys in `held` makes of this world.
    pub open spec fn tick(self, held: Set<Key>) -> WorldView {
        self.steer(held).limit()
    }
}

impl World {
    /// Whether there are exactly two paddles, the left one first, neither
    /// with a negative speed.
    pub fn is_wf(&self) -> (ok: bool)
        ensures
            ok == self@.wf(),
    {
        if self.paddles.len() != 2 {
            return false;
        }
        let left = &self.paddles[0].paddle;
        let right = &self.paddles[1].paddle;
        left.side == PaddleSide::LEFT && right.side == PaddleSide::RIGHT && left.speed >= 0
            && right.speed >= 0
    }

    /// Creates the two paddles and the ball of a match.
    pub fn setup() -> (world: World)
        ensures
            world@ == WorldView::start(),
            world@.wf(),
    {
        let mut paddles: Vec<PaddleBundle> = Vec::new();
        paddles.push(PaddleBundle::new(MATCH_PADDLE_SPEED, PaddleSide::LEFT));
        paddles.push(PaddleBundle::new(MATCH_PADDLE_SPEED, PaddleSide::RIGHT));
        let world = World { paddles, ball: BallBundle::new(Vec3::new(0, 0, 0), BALL_SIZE) };
        assert(world@.paddles =~= WorldView::start().paddles);
        world
    }

    /// Sets the velocity of every paddle from the keys. The ball is not
    /// touched.
    pub fn steer_paddles(&mut self, keys: &KeyState)
        requires
            old(self)@.wf(),
        ensures
            final(self)@ == old(self)@.steer(keys@),
            final(self)@.wf(),
    {
        movement(keys, &mut self.paddles);
        assert(self@.paddles =~= old(self)@.steer(keys@).paddles);
    }

    /// Clamps the ball's horizontal velocity. The paddles are not touched.
    pub fn limit_ball(&mut self)
        ensures
            final(self)@ == old(self)@.limit(),
            old(self)@.wf() ==> final(self)@.wf(),
    {
        self.ball.limit_velocity();
    }

    /// One tick under an already taken snapshot of the keys.
    pub fn tick(&mut self, keys: &KeyState)
        requires
            old(self)@.wf(),
        ensures
            final(self)@ == old(self)@.tick(keys@),
            final(self)@.wf(),
    {
        self.steer_paddles(keys);
        self.limit_ball();
    }
}

/// One tick of the match: reads the keys, steers the paddles, clamps the ball.
pub fn simulate_tick(keyboard: &Input<KeyCode>, world: World) -> (next: World)
    requires
        world@.wf(),
    ensures
        next@ == world@.tick(held_keys(*keyboard)),
        next@.wf(),
{
    let keys = KeyState::read(keyboard);
    let mut next = world;
    next.tick(&keys);
    next
}

/// A tick keeps the match: the same two paddles with their sides and speeds
/// stay, nothing is moved, and only velocities change. After it each paddle
/// moves as the keys ask and the ball is within the limit.
pub proof fn lemma_tick_keeps_the_match(world: WorldView, held: Set<Key>)
    requires
        world.wf(),
    ensures
        world.tick(held).wf(),
        world.tick(held).paddles.len() == world.paddles.len(),
        forall|i: int|
            0 <= i < world.paddles.len() ==> {
                let before = #[trigger] world.paddles[i];
                let after = world.tick(held).paddles[i];
                &&& after.paddle == before.paddle
                &&& after.translation == before.translation
                &&& after.body == before.body
                &&& after.collider == before.collider
                &&& after.velocity.x == before.velocity.x
                &&& after.velocity.y == before.paddle.spec_velocity(held)
            },
        world.tick(held).ball.translation == world.ball.translation,
        world.tick(held).ball.velocity.y == world.ball.velocity.y,
        world.tick(held).ball.velocity.x == spec_limit(world.ball.velocity.x as int),
        -BALL_MAX_VELOCITY <= world.tick(held).ball.velocity.x <= BALL_MAX_VELOCITY,
{
}

/// Nothing accumulates from tick to tick: after a tick under the keys in
/// `held`, the world is the same whatever keys were held in the tick
/// before. A second tick under the same keys changes nothing.
pub proof fn lemma_last_keys_decide(world: WorldView, earlier: Set<Key>, held: Set<Key>)
    requires
        world.wf(),
    ensures
        world.tick(earlier).tick(held) == world.tick(held),
        world.tick(held).tick(held) == world.tick(held),
{
    lemma_limit(world.ball.velocity.x as int);
    assert(world.tick(earlier).tick(held).paddles =~= world.tick(held).paddles);
    assert(world.tick(held).tick(held).paddles =~= world.tick(held).paddles);
}

/// Steering and limiting do not depend on each other: the keys never reach
/// the ball, the ball never reaches the paddles, and the two may be done in
/// either order.
pub proof fn lemma_steer_and_limit_commute(world: WorldView, held: Set<Key>)
    ensures
        world.steer(held).ball == world.ball,
        world.limit().paddles == world.paddles,
        world.limit().steer(held) == world.steer(held).limit(),
{
}

} // verus!
