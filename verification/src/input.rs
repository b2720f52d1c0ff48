//! The keyboard as the paddles see it.
//!
//! The engine keeps the set of held buttons in `bevy::input::Input`. The
//! rules listen to four keys only, so once per tick that set is read into a
//! `KeyState`, a plain snapshot on which everything else is decided. A key
//! that is none of the four has no place in the snapshot and so no effect.

use bevy::input::keyboard::KeyCode;
use bevy::input::Input;
use std::hash::Hash;
use vstd::prelude::*;

verus! {

/// `bevy::input::keyboard::KeyCode`, carried through as an opaque value.
#[verifier::external_type_specification]
#[verifier::external_body]
pub struct ExKeyCode(KeyCode);

/// `bevy::input::Input`, the engine's record of which buttons are held.
/// Nothing inside it is visible to the proofs.
#[verifier::external_type_specification]
#[verifier::external_body]
#[verifier::reject_recursive_types(T)]
pub struct ExInput<T: Copy + Eq + Hash + Send + Sync + 'static>(Input<T>);

/// The keys that the two control schemes listen to, named as the engine
/// names them.
#[derive(Clone, Copy, Debug, PartialEq, Eq, Structural)]
pub enum Key {
    W,
    S,
    Up,
    Down,
}

/// Those of the four listened-to keys that `keyboard` holds as pressed.
pub uninterp spec fn held_keys(keyboard: Input<KeyCode>) -> Set<Key>;

/// Calls `Input::pressed` with the engine's key code of the same name as
/// `key`. Not proved: that this is membership in the set of pressed buttons
/// that `keyboard` holds, which `held_keys` names.
#[verifier::external_body]
fn key_pressed(keyboard: &Input<KeyCode>, key: Key) -> (held: bool)
    ensures
        held == held_keys(*keyboard).contains(key),
{
    keyboard.pressed(
        match key {
            Key::W => KeyCode::W,
            Key::S => KeyCode::S,
            Key::Up => KeyCode::Up,
            Key::Down => KeyCode::Down,
        },
    )
}

/// Which of the four keys are held during one tick.
#[derive(Clone, Copy, Debug, PartialEq, Eq, Structural)]
pub struct KeyState {
    pub w: bool,
    pub s: bool,
    pub up: bool,
    pub down: bool,
}

impl View for KeyState {
    type V = Set<Key>;

    /// The set of held keys.
    open spec fn view(&self) -> Set<Key> {
        Set::new(|key: Key| self.spec_pressed(key))
    }
}

impl KeyState {
    pub open spec fn spec_pressed(&self, key: Key) -> bool {
        match key {
            Key::W => self.w,
            Key::S => self.s,
            Key::Up => self.up,
            Key::Down => self.down,
        }
    }

    /// Whether `key` is held.
    pub fn pressed(&self, key: Key) -> (held: bool)
        ensures
            held == self@.contains(key),
    {
        match key {
            Key::W => self.w,
            Key::S => self.s,
            Key::Up => self.up,
            Key::Down => self.down,
        }
    }

    /// Reads the four keys out of the engine's record.
    pub fn read(keyboard: &Input<KeyCode>) -> (keys: KeyState)
        ensures
            keys@ == held_keys(*keyboard),
    {
        let keys = KeyState {
            w: key_pressed(keyboard, Key::W),
            s: key_pressed(keyboard, Key::S),
            up: key_pressed(keyboard, Key::Up),
            down: key_pressed(keyboard, Key::Down),
        };
        assert(keys@ =~= held_keys(*keyboard));
        keys
    }
}

} // verus!
