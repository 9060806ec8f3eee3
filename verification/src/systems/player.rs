//! The player's movement, as far as it is decided by the keyboard.

use crate::input::{first_pressed, pressed_keys, reads, Key};
use bevy::input::keyboard::KeyCode;
use bevy::input::ButtonInput;
use vstd::prelude::*;

verus! {

/// A step of the player along the axes of the screen: -1, 0 or 1 on each.
#[derive(Clone, Copy, Debug, PartialEq, Eq, Structural)]
pub struct Direction {
    /// To the right if positive, to the left if negative.
    pub x: i8,
    /// Upwards if positive, downwards if negative.
    pub y: i8,
}

impl Direction {
    /// Whether the step leads nowhere.
    pub open spec fn is_zero(&self) -> bool {
        self.x == 0 && self.y == 0
    }

    /// Whether the step has length one along exactly one axis.
    pub open spec fn is_unit(&self) -> bool {
        ||| (self.x == 1 || self.x == -1) && self.y == 0
        ||| (self.y == 1 || self.y == -1) && self.x == 0
    }

    /// Whether the step leads nowhere. Only a step that leads somewhere can
    /// be brought to length one.
    pub fn at_rest(&self) -> (rest: bool)
        ensures
            rest == self.is_zero(),
    {
        self.x == 0 && self.y == 0
    }
}

/// The step that the one key of a frame asks for: `W` or the up arrow leads
/// up, `S` or the down arrow down, `A` or the left arrow left, `D` or the
/// right arrow right, and anything else nowhere.
pub open spec fn direction_of(key: Option<Key>) -> Direction {
    match key {
        Some(Key::KeyW) | Some(Key::ArrowUp) => Direction { x: 0, y: 1 },
        Some(Key::KeyS) | Some(Key::ArrowDown) => Direction { x: 0, y: -1i8 },
        Some(Key::KeyA) | Some(Key::ArrowLeft) => Direction { x: -1i8, y: 0 },
        Some(Key::KeyD) | Some(Key::ArrowRight) => Direction { x: 1, y: 0 },
        _ => Direction { x: 0, y: 0 },
    }
}

/// Whether the key is one of the eight that move the player.
pub open spec fn moves_player(key: Option<Key>) -> bool {
    key matches Some(k) && (k == Key::KeyW || k == Key::ArrowUp || k == Key::KeyS || k
        == Key::ArrowDown || k == Key::KeyA || k == Key::ArrowLeft || k == Key::KeyD || k
        == Key::ArrowRight)
}

/// A key that moves the player gives a step of length one along exactly one
/// axis, and anything else gives no step at all.
pub proof fn lemma_one_axis_at_a_time(key: Option<Key>)
    ensures
        moves_player(key) ==> direction_of(key).is_unit(),
        !moves_player(key) ==> direction_of(key).is_zero(),
        !(direction_of(key).is_unit() && direction_of(key).is_zero()),
{
}

/// The step of a frame, taken over any distance, leads exactly that far
/// along one axis and not at all along the other where a movement key was
/// read, and nowhere at all where none was.
pub proof fn lemma_step_over_distance(key: Option<Key>, distance: int)
    ensures
        !moves_player(key) ==> direction_of(key).x * distance == 0 && direction_of(key).y
            * distance == 0,
        moves_player(key) ==> {
            let step = direction_of(key);
            ||| (step.x * distance == distance || step.x * distance == -distance) && step.y
                * distance == 0
            ||| (step.y * distance == distance || step.y * distance == -distance) && step.x
                * distance == 0
        },
{
}

/// The step that `key` asks for, where `key` is the one key of a frame.
pub fn player_direction(key: Option<Key>) -> (direction: Direction)
    ensures
        direction == direction_of(key),
{
    match key {
        Some(Key::KeyW) | Some(Key::ArrowUp) => Direction { x: 0, y: 1 },
        Some(Key::KeyS) | Some(Key::ArrowDown) => Direction { x: 0, y: -1 },
        Some(Key::KeyA) | Some(Key::ArrowLeft) => Direction { x: -1, y: 0 },
        Some(Key::KeyD) | Some(Key::ArrowRight) => Direction { x: 1, y: 0 },
        _ => Direction { x: 0, y: 0 },
    }
}

/// Decides the player's step for this frame: reads one key from the engine's
/// collection of pressed keys, whichever it gives first, and takes the step
/// that this key asks for. Only one key is read, so the step never leads
/// along both axes, however many keys are down.
pub fn player_movement(keys: &ButtonInput<KeyCode>) -> (direction: Direction)
    ensures
        exists|key: Option<Key>|
            #[trigger] reads(key, pressed_keys(*keys)) && direction == direction_of(key),
        direction.is_zero() || direction.is_unit(),
{
    let key = first_pressed(keys);
    proof {
        lemma_one_axis_at_a_time(key);
    }
    player_direction(key)
}

} // verus!
