use bevy::input::keyboard::KeyCode;
use bevy::input::ButtonInput;
use tree_scene::controls::Held;
use tree_scene::orbit::{camera_turns, turns, Turn};

fn held(a: bool, arrow_left: bool, d: bool, arrow_right: bool) -> Held {
    Held { a, arrow_left, d, arrow_right }
}

#[test]
fn no_key_no_turn() {
    assert_eq!(turns(held(false, false, false, false)), vec![]);
}

#[test]
fn a_turns_counterclockwise() {
    assert_eq!(turns(held(true, false, false, false)), vec![Turn::Counterclockwise]);
}

#[test]
fn left_arrow_turns_counterclockwise() {
    assert_eq!(turns(held(false, true, false, false)), vec![Turn::Counterclockwise]);
}

#[test]
fn d_turns_clockwise() {
    assert_eq!(turns(held(false, false, true, false)), vec![Turn::Clockwise]);
}

#[test]
fn right_arrow_turns_clockwise() {
    assert_eq!(turns(held(false, false, false, true)), vec![Turn::Clockwise]);
}

#[test]
fn two_keys_for_one_side_turn_once() {
    assert_eq!(turns(held(true, true, false, false)), vec![Turn::Counterclockwise]);
    assert_eq!(turns(held(false, false, true, true)), vec![Turn::Clockwise]);
}

#[test]
fn both_sides_turn_counterclockwise_first() {
    let both = vec![Turn::Counterclockwise, Turn::Clockwise];
    assert_eq!(turns(held(true, false, true, false)), both);
    assert_eq!(turns(held(true, false, false, true)), both);
    assert_eq!(turns(held(false, true, true, false)), both);
    assert_eq!(turns(held(false, true, false, true)), both);
    assert_eq!(turns(held(true, true, true, true)), both);
}

#[test]
fn every_key_state_gives_the_turns_of_its_sides() {
    for bits in 0u8..16 {
        let h = held(bits & 1 != 0, bits & 2 != 0, bits & 4 != 0, bits & 8 != 0);
        let mut expected = Vec::new();
        if h.a || h.arrow_left {
            expected.push(Turn::Counterclockwise);
        }
        if h.d || h.arrow_right {
            expected.push(Turn::Clockwise);
        }
        assert_eq!(turns(h), expected);
    }
}

#[test]
fn sign_is_positive_counterclockwise() {
    assert_eq!(Turn::Counterclockwise.sign(), 1);
    assert_eq!(Turn::Clockwise.sign(), -1);
}

#[test]
fn signs_of_opposite_turns_cancel() {
    let total: i8 = turns(held(true, false, true, false)).iter().map(|t| t.sign()).sum();
    assert_eq!(total, 0);
}

#[test]
fn camera_rests_while_no_key_is_down() {
    let keys = ButtonInput::<KeyCode>::default();
    assert_eq!(camera_turns(&keys), vec![]);
}

#[test]
fn camera_follows_the_key_that_is_down() {
    let mut keys = ButtonInput::<KeyCode>::default();
    keys.press(KeyCode::KeyA);
    assert_eq!(camera_turns(&keys), vec![Turn::Counterclockwise]);
    keys.release(KeyCode::KeyA);
    keys.press(KeyCode::ArrowRight);
    assert_eq!(camera_turns(&keys), vec![Turn::Clockwise]);
    keys.release(KeyCode::ArrowRight);
    keys.press(KeyCode::ArrowLeft);
    assert_eq!(camera_turns(&keys), vec![Turn::Counterclockwise]);
    keys.release(KeyCode::ArrowLeft);
    keys.press(KeyCode::KeyD);
    assert_eq!(camera_turns(&keys), vec![Turn::Clockwise]);
}

#[test]
fn camera_keeps_turning_while_the_key_stays_down() {
    let mut keys = ButtonInput::<KeyCode>::default();
    keys.press(KeyCode::KeyD);
    keys.clear();
    assert_eq!(camera_turns(&keys), vec![Turn::Clockwise]);
    keys.release(KeyCode::KeyD);
    assert_eq!(camera_turns(&keys), vec![]);
}

#[test]
fn camera_turns_both_ways_when_both_sides_are_down() {
    let mut keys = ButtonInput::<KeyCode>::default();
    keys.press(KeyCode::ArrowRight);
    keys.press(KeyCode::KeyA);
    assert_eq!(camera_turns(&keys), vec![Turn::Counterclockwise, Turn::Clockwise]);
}

#[test]
fn camera_ignores_other_keys() {
    let mut keys = ButtonInput::<KeyCode>::default();
    keys.press(KeyCode::KeyW);
    keys.press(KeyCode::ArrowUp);
    keys.press(KeyCode::Space);
    assert_eq!(camera_turns(&keys), vec![]);
}
