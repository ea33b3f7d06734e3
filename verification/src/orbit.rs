//! Which way the camera turns around the orbit centre in one frame.

use crate::controls::{keys_held, Held};
use bevy::input::keyboard::KeyCode;
use bevy::input::ButtonInput;
use vstd::prelude::*;

verus! {

/// A turn of the camera about the vertical axis through the orbit centre,
/// seen from above.
#[derive(Clone, Copy, Debug, PartialEq, Eq, Structural)]
pub enum Turn {
    Counterclockwise,
    Clockwise,
}

impl Turn {
    /// The sign of the turn's angle: rotation about the vertical axis is
    /// positive counterclockwise.
    pub open spec fn sign_of(self) -> int {
        match self {
            Turn::Counterclockwise => 1,
            Turn::Clockwise => -1,
        }
    }

    /// The factor, `1` or `-1`, by which the frame's angle is multiplied for
    /// this turn.
    pub fn sign(self) -> (r: i8)
        ensures
            r == self.sign_of(),
    {
        match self {
            Turn::Counterclockwise => 1,
            Turn::Clockwise => -1,
        }
    }
}

/// The turns of one frame, in the order in which they are applied: first the
/// counterclockwise turn, if the keys steer left, then the clockwise turn, if
/// they steer right. Keys that steer both ways give both turns.
pub open spec fn turns_of(held: Held) -> Seq<Turn> {
    let first = if held.steers_left() {
        seq![Turn::Counterclockwise]
    } else {
        Seq::empty()
    };
    let second = if held.steers_right() {
        seq![Turn::Clockwise]
    } else {
        Seq::empty()
    };
    first + second
}

/// The turns to apply to the camera in a frame in which the steering keys are
/// as `held` says.
pub fn turns(held: Held) -> (r: Vec<Turn>)
    ensures
        r@ == turns_of(held),
{
    let mut r: Vec<Turn> = Vec::new();
    if held.a || held.arrow_left {
        r.push(Turn::Counterclockwise);
    }
    if held.d || held.arrow_right {
        r.push(Turn::Clockwise);
    }
    r
}

/// The turns to apply to the camera this frame, read from the keys that are
/// down: a counterclockwise turn while `A` or the left arrow is held, then a
/// clockwise turn while `D` or the right arrow is held.
pub fn camera_turns(keys: &ButtonInput<KeyCode>) -> (r: Vec<Turn>)
    ensures
        r@ == turns_of(Held::of(keys_held(*keys))),
{
    turns(Held::read(keys))
}

} // verus!
