//! The rules of a two-player Pong match, for a game built on the Bevy engine.
//!
//! Two paddles guard the left and the right edge of the field and a ball
//! travels between them. The engine draws the match and its physics moves
//! the bodies; this crate decides what the rules decide: where the paddles
//! stand and how the ball is served (`world`, `paddle`, `ball`), how the
//! held keys steer each paddle (`input`, `paddle`), and how fast the ball
//! may cross the field (`ball`). Lengths and speeds are fixed-point numbers
//! (`units`).

use vstd::prelude::*;

pub mod ball;
pub mod body;
pub mod input;
pub mod paddle;
pub mod units;
pub mod world;

verus! {

/// The width of the play field, which is centred on zero.
pub const WINDOW_WIDTH: i64 = 1000 * crate::units::UNIT;

/// The height of the play field.
pub const WINDOW_HEIGHT: i64 = 720 * crate::units::UNIT;

} // verus!
