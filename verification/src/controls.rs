//! The keys and the mouse buttons that the scene listens to, read from the
//! engine's button state.

use bevy::input::keyboard::KeyCode;
use bevy::input::mouse::MouseButton;
use bevy::input::ButtonInput;
use std::hash::Hash;
use vstd::prelude::*;

verus! {

/// `bevy::input::ButtonInput`, the engine's record of which buttons of one
/// kind are down and which went down this frame. Nothing is known of what is
/// inside it but through `keys_held` and `buttons_clicked`.
#[verifier::external_type_specification]
#[verifier::external_body]
#[verifier::reject_recursive_types(T)]
pub struct ExButtonInput<T: Copy + Eq + Hash + Send + Sync + 'static>(ButtonInput<T>);

/// `bevy::input::keyboard::KeyCode`, the engine's name for a physical key.
#[verifier::external_type_specification]
#[verifier::external_body]
pub struct ExKeyCode(KeyCode);

/// `bevy::input::mouse::MouseButton`, the engine's name for a mouse button.
#[verifier::external_type_specification]
#[verifier::external_body]
pub struct ExMouseButton(MouseButton);

/// A key that steers the camera.
#[derive(Clone, Copy, Debug, PartialEq, Eq, Structural)]
pub enum Key {
    A,
    ArrowLeft,
    D,
    ArrowRight,
}

/// A mouse button, as the engine tells them apart.
#[derive(Clone, Copy, Debug, PartialEq, Eq, Structural)]
pub enum Button {
    Left,
    Right,
    Middle,
    Back,
    Forward,
    Other(u16),
}

/// The steering keys that `keys` records as down.
pub uninterp spec fn keys_held(keys: ButtonInput<KeyCode>) -> Set<Key>;

/// The mouse buttons that `buttons` records as having gone down this frame.
pub uninterp spec fn buttons_clicked(buttons: ButtonInput<MouseButton>) -> Set<Button>;

/// `ButtonInput::pressed`, asked of the key code that `key` stands for: whether
/// that key is among those recorded as down.
#[verifier::external_body]
fn key_held(keys: &ButtonInput<KeyCode>, key: Key) -> (r: bool)
    ensures
        r == keys_held(*keys).contains(key),
{
    keys.pressed(match key {
        Key::A => KeyCode::KeyA,
        Key::ArrowLeft => KeyCode::ArrowLeft,
        Key::D => KeyCode::KeyD,
        Key::ArrowRight => KeyCode::ArrowRight,
    })
}

/// `ButtonInput::just_pressed`, asked of the mouse button that `button` stands
/// for: whether that button is among those recorded as having gone down this
/// frame.
#[verifier::external_body]
fn button_clicked(buttons: &ButtonInput<MouseButton>, button: Button) -> (r: bool)
    ensures
        r == buttons_clicked(*buttons).contains(button),
{
    buttons.just_pressed(match button {
        Button::Left => MouseButton::Left,
        Button::Right => MouseButton::Right,
        Button::Middle => MouseButton::Middle,
        Button::Back => MouseButton::Back,
        Button::Forward => MouseButton::Forward,
        Button::Other(n) => MouseButton::Other(n),
    })
}

/// The steering keys at one moment: for each, whether it is down.
#[derive(Clone, Copy, Debug, PartialEq, Eq, Structural)]
pub struct Held {
    pub a: bool,
    pub arrow_left: bool,
    pub d: bool,
    pub arrow_right: bool,
}

impl Held {
    /// The steering keys as a set of held keys shows them.
    pub open spec fn of(held: Set<Key>) -> Held {
        Held {
            a: held.contains(Key::A),
            arrow_left: held.contains(Key::ArrowLeft),
            d: held.contains(Key::D),
            arrow_right: held.contains(Key::ArrowRight),
        }
    }

    /// Whether the keys ask to steer left: `A` or the left arrow is down.
    pub open spec fn steers_left(self) -> bool {
        self.a || self.arrow_left
    }

    /// Whether the keys ask to steer right: `D` or the right arrow is down.
    pub open spec fn steers_right(self) -> bool {
        self.d || self.arrow_right
    }

    /// The steering keys as `keys` records them now.
    pub fn read(keys: &ButtonInput<KeyCode>) -> (r: Held)
        ensures
            r == Held::of(keys_held(*keys)),
    {
        Held {
            a: key_held(keys, Key::A),
            arrow_left: key_held(keys, Key::ArrowLeft),
            d: key_held(keys, Key::D),
            arrow_right: key_held(keys, Key::ArrowRight),
        }
    }
}

/// Whether a tree was asked for this frame: the left mouse button went down.
pub fn plant_click(buttons: &ButtonInput<MouseButton>) -> (r: bool)
    ensures
        r == buttons_clicked(*buttons).contains(Button::Left),
{
    button_clicked(buttons, Button::Left)
}

} // verus!
