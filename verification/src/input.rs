//! The input of one frame: the keys and pointer states that the game tells
//! apart, and what the engine's key collection holds of them.

use bevy::input::keyboard::KeyCode;
use bevy::input::ButtonInput;
use vstd::prelude::*;

verus! {

/// A key of the keyboard, as far as the game tells keys apart.
#[derive(Clone, Copy, Debug, PartialEq, Eq, Structural)]
pub enum Key {
    ArrowUp,
    ArrowDown,
    ArrowLeft,
    ArrowRight,
    KeyW,
    KeyA,
    KeyS,
    KeyD,
    Enter,
    NumpadEnter,
    Escape,
    /// Any key that the game gives no meaning to.
    Other,
}

/// The state of the pointer over one interactive node.
#[derive(Clone, Copy, Debug, PartialEq, Eq, Structural)]
pub enum Interaction {
    /// The node is being pressed.
    Pressed,
    /// The pointer rests on the node.
    Hovered,
    /// The pointer has left the node.
    Cleared,
}

/// The engine's key codes, `bevy::input::keyboard::KeyCode`. Nothing is
/// claimed of them: the library only hands them on.
#[verifier::external_type_specification]
#[verifier::external_body]
pub struct ExKeyCode(bevy::input::keyboard::KeyCode);

/// The engine's collection of pressed buttons, `bevy::input::ButtonInput`.
/// What it holds is named by `pressed_keys` and `just_pressed_keys`.
#[verifier::external_type_specification]
#[verifier::external_body]
#[verifier::reject_recursive_types(T)]
pub struct ExButtonInput<T: Copy + Eq + std::hash::Hash + Send + Sync + 'static>(
    bevy::input::ButtonInput<T>,
);

/// The keys that stand for the key codes which `keys` holds as pressed: each
/// of the eleven keys with a name of its own for the key code of that name,
/// and `Key::Other` for every other key code.
pub uninterp spec fn pressed_keys(keys: ButtonInput<KeyCode>) -> Set<Key>;

/// The keys that stand for the key codes which `keys` holds as pressed in
/// this very frame, in the same way.
pub uninterp spec fn just_pressed_keys(keys: ButtonInput<KeyCode>) -> Set<Key>;

/// Whether `key` can be what a frame reads from the keys `pressed`: one of
/// them, whichever; or none, where none is pressed.
pub open spec fn reads(key: Option<Key>, pressed: Set<Key>) -> bool {
    match key {
        Some(k) => pressed.contains(k),
        None => pressed == Set::<Key>::empty(),
    }
}

/// Takes the first key code that `ButtonInput::get_pressed` walks over, if
/// there is one, and hands out the key that stands for it. Not proved: that
/// the outside iterator walks over the pressed key codes and over nothing
/// else. Which of several pressed keys comes first is left open, as the
/// outside crate leaves it.
#[verifier::external_body]
pub(crate) fn first_pressed(keys: &ButtonInput<KeyCode>) -> (key: Option<Key>)
    ensures
        reads(key, pressed_keys(*keys)),
{
    keys.get_pressed().next().map(|code| match code {
        KeyCode::ArrowUp => Key::ArrowUp,
        KeyCode::ArrowDown => Key::ArrowDown,
        KeyCode::ArrowLeft => Key::ArrowLeft,
        KeyCode::ArrowRight => Key::ArrowRight,
        KeyCode::KeyW => Key::KeyW,
        KeyCode::KeyA => Key::KeyA,
        KeyCode::KeyS => Key::KeyS,
        KeyCode::KeyD => Key::KeyD,
        KeyCode::Enter => Key::Enter,
        KeyCode::NumpadEnter => Key::NumpadEnter,
        KeyCode::Escape => Key::Escape,
        _ => Key::Other,
    })
}

/// Asks `ButtonInput::just_pressed` whether `Escape` went down in this frame.
/// Not proved: that the outside function answers by what the collection
/// holds as pressed in this frame.
#[verifier::external_body]
pub(crate) fn escape_just_pressed(keys: &ButtonInput<KeyCode>) -> (pressed: bool)
    ensures
        pressed == just_pressed_keys(*keys).contains(Key::Escape),
{
    keys.just_pressed(KeyCode::Escape)
}

} // verus!
