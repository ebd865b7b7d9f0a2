use topdown::fp::{Vec2Fp, Vec2Px, WindowSize};
use topdown::player::control::{Control, ControlMode};
use topdown::player::frame::{FrameBase, OFFSET_LEFT, OFFSET_RIGHT, OFFSET_UP};
use topdown::player::keyboard::{self, KeyState};
use topdown::player::mouse::{self, MouseButtons};

fn zero() -> Vec2Fp {
    Vec2Fp { x: 0, y: 0 }
}

fn win() -> WindowSize {
    WindowSize { width: 1280, height: 800 }
}

#[test]
fn opposing_horizontal_keys_cancel() {
    let keys = KeyState { a: true, d: true, ..Default::default() };
    let mut velocity = zero();
    let mut frame = FrameBase::default();
    let mut control = Control::default();
    keyboard::input(&keys, &mut velocity, &mut frame, &mut control);
    assert_eq!(velocity, zero());
    assert_eq!(control.mode, ControlMode::Inactive);
}

#[test]
fn opposing_vertical_keys_cancel() {
    let keys = KeyState { w: true, s: true, ..Default::default() };
    let mut velocity = zero();
    let mut frame = FrameBase::default();
    let mut control = Control::default();
    keyboard::input(&keys, &mut velocity, &mut frame, &mut control);
    assert_eq!(velocity, zero());
}

#[test]
fn opposing_pair_plus_up_moves_straight_up() {
    let keys = KeyState { a: true, d: true, w: true, ..Default::default() };
    let mut velocity = zero();
    let mut frame = FrameBase::default();
    let mut control = Control::default();
    keyboard::input(&keys, &mut velocity, &mut frame, &mut control);
    assert_eq!(velocity, Vec2Fp { x: 0, y: 1000 });
    assert_eq!(frame.offset(), OFFSET_UP);
    assert_eq!(control.mode, ControlMode::Keyboard);
}

#[test]
fn arrow_keys_alias_wasd() {
    let keys = KeyState { left: true, ..Default::default() };
    let mut velocity = zero();
    let mut frame = FrameBase::default();
    let mut control = Control::default();
    keyboard::input(&keys, &mut velocity, &mut frame, &mut control);
    assert_eq!(velocity, Vec2Fp { x: -1000, y: 0 });
    assert_eq!(frame.offset(), OFFSET_LEFT);
}

#[test]
fn diagonal_direction_is_unit_length() {
    let keys = KeyState { w: true, d: true, ..Default::default() };
    let mut velocity = zero();
    let mut frame = FrameBase::default();
    let mut control = Control::default();
    keyboard::input(&keys, &mut velocity, &mut frame, &mut control);
    // a unit diagonal, not a length-sqrt(2) one
    assert_eq!(velocity, Vec2Fp { x: 707, y: 707 });
    // on a diagonal the vertical axis picks the facing row
    assert_eq!(frame.offset(), OFFSET_UP);
    let ns = velocity.x * velocity.x + velocity.y * velocity.y;
    assert_eq!(ns, 999698);
    assert!(ns <= 1000 * 1000);
    assert!(ns > 999 * 999);
}

#[test]
fn releasing_keyboard_stops_and_frees_control() {
    let keys = KeyState { d: true, ..Default::default() };
    let mut velocity = zero();
    let mut frame = FrameBase::default();
    let mut control = Control::default();
    keyboard::input(&keys, &mut velocity, &mut frame, &mut control);
    assert_eq!(control.mode, ControlMode::Keyboard);
    assert_eq!(velocity, Vec2Fp { x: 1000, y: 0 });

    let released = KeyState::default();
    keyboard::input(&released, &mut velocity, &mut frame, &mut control);
    assert_eq!(control.mode, ControlMode::Inactive);
    assert_eq!(velocity, zero());
    // the facing keeps the last direction
    assert_eq!(frame.offset(), OFFSET_RIGHT);
}

#[test]
fn long_horizontal_drag_clamps_to_unit_speed() {
    let mut velocity = zero();
    let mut frame = FrameBase::default();
    let mut control = Control::default();

    // press anchors the drag
    let press = MouseButtons { pressed: true, just_pressed: true, just_released: false };
    let cursor = Some(Vec2Px { x: 100, y: 100 });
    mouse::input(&win(), &press, &cursor, &mut velocity, &mut frame, &mut control);
    assert_eq!(control.mode, ControlMode::Mouse);
    assert_eq!(control.click_start_location, Vec2Px { x: 100, y: 100 });
    assert_eq!(velocity, zero());

    // drag 800 px to the right: well past the drag circle, so the
    // direction saturates at exactly one unit
    let hold = MouseButtons { pressed: true, just_pressed: false, just_released: false };
    let far = Some(Vec2Px { x: 900, y: 100 });
    mouse::input(&win(), &hold, &far, &mut velocity, &mut frame, &mut control);
    assert_eq!(velocity, Vec2Fp { x: 1000, y: 0 });
    assert_eq!(frame.offset(), OFFSET_RIGHT);
}

#[test]
fn long_diagonal_drag_clamps_to_unit_speed() {
    let mut velocity = zero();
    let mut frame = FrameBase::default();
    let mut control = Control::default();
    let press = MouseButtons { pressed: true, just_pressed: true, just_released: false };
    let cursor = Some(Vec2Px { x: 100, y: 100 });
    mouse::input(&win(), &press, &cursor, &mut velocity, &mut frame, &mut control);

    let hold = MouseButtons { pressed: true, just_pressed: false, just_released: false };
    let far = Some(Vec2Px { x: 900, y: 900 });
    mouse::input(&win(), &hold, &far, &mut velocity, &mut frame, &mut control);
    assert_eq!(velocity, Vec2Fp { x: 707, y: 707 });
    let ns = velocity.x * velocity.x + velocity.y * velocity.y;
    assert!(ns <= 1002000);
    assert!(ns >= 1000 * 1000 - 4 * 1000 - 1);
}

#[test]
fn short_drag_moves_slowly() {
    let mut velocity = zero();
    let mut frame = FrameBase::default();
    let mut control = Control::default();
    let press = MouseButtons { pressed: true, just_pressed: true, just_released: false };
    let cursor = Some(Vec2Px { x: 100, y: 100 });
    mouse::input(&win(), &press, &cursor, &mut velocity, &mut frame, &mut control);

    // 50 px on a 1509 px diagonal: 50 * 15000 / 1509 = 497
    let hold = MouseButtons { pressed: true, just_pressed: false, just_released: false };
    let near = Some(Vec2Px { x: 150, y: 100 });
    mouse::input(&win(), &hold, &near, &mut velocity, &mut frame, &mut control);
    assert_eq!(velocity, Vec2Fp { x: 497, y: 0 });
}

#[test]
fn releasing_button_stops_player() {
    let mut velocity = zero();
    let mut frame = FrameBase::default();
    let mut control = Control::default();
    let press = MouseButtons { pressed: true, just_pressed: true, just_released: false };
    let cursor = Some(Vec2Px { x: 100, y: 100 });
    mouse::input(&win(), &press, &cursor, &mut velocity, &mut frame, &mut control);
    let hold = MouseButtons { pressed: true, just_pressed: false, just_released: false };
    let far = Some(Vec2Px { x: 900, y: 100 });
    mouse::input(&win(), &hold, &far, &mut velocity, &mut frame, &mut control);
    assert_eq!(velocity, Vec2Fp { x: 1000, y: 0 });

    let release = MouseButtons { pressed: false, just_pressed: false, just_released: true };
    mouse::input(&win(), &release, &far, &mut velocity, &mut frame, &mut control);
    assert_eq!(velocity, zero());
    assert_eq!(control.mode, ControlMode::Inactive);
}

#[test]
fn keyboard_preempts_mouse() {
    let mut velocity = zero();
    let mut frame = FrameBase::default();
    let mut control = Control::default();
    let press = MouseButtons { pressed: true, just_pressed: true, just_released: false };
    let cursor = Some(Vec2Px { x: 100, y: 100 });
    mouse::input(&win(), &press, &cursor, &mut velocity, &mut frame, &mut control);
    let hold = MouseButtons { pressed: true, just_pressed: false, just_released: false };
    let far = Some(Vec2Px { x: 900, y: 100 });
    mouse::input(&win(), &hold, &far, &mut velocity, &mut frame, &mut control);
    assert_eq!(control.mode, ControlMode::Mouse);

    // a keyboard press takes the control away, even while dragging
    let keys = KeyState { s: true, ..Default::default() };
    keyboard::input(&keys, &mut velocity, &mut frame, &mut control);
    assert_eq!(control.mode, ControlMode::Keyboard);
    assert_eq!(velocity, Vec2Fp { x: 0, y: -1000 });
}

#[test]
fn click_while_keyboard_active_changes_nothing() {
    // walk right with the keyboard
    let mut velocity = zero();
    let mut frame = FrameBase::default();
    let mut control = Control::default();
    let keys = KeyState { d: true, ..Default::default() };
    keyboard::input(&keys, &mut velocity, &mut frame, &mut control);
    assert_eq!(control.mode, ControlMode::Keyboard);
    let anchor_before = control.click_start_location;

    // a fresh click while the keys are held is not consulted: the
    // velocity and facing stay the keyboard's, the drag is not
    // anchored, and the control is not taken
    let press = MouseButtons { pressed: true, just_pressed: true, just_released: false };
    let cursor = Some(Vec2Px { x: 333, y: 444 });
    mouse::input(&win(), &press, &cursor, &mut velocity, &mut frame, &mut control);
    assert_eq!(velocity, Vec2Fp { x: 1000, y: 0 });
    assert_eq!(frame.offset(), OFFSET_RIGHT);
    assert_eq!(control.mode, ControlMode::Keyboard);
    assert_eq!(control.click_start_location, anchor_before);
}

#[test]
fn click_while_keyboard_active_does_not_stall_a_frame() {
    // whole-frame view of the same rule: a click mid-walk neither
    // stops the player for a frame nor flips the facing row
    let mut player = topdown::player::Player::new();
    let keys = KeyState { d: true, ..Default::default() };
    let idle = MouseButtons::default();
    topdown::player::system(&win(), 16, &keys, &idle, &None, &mut player);

    let press = MouseButtons { pressed: true, just_pressed: true, just_released: false };
    let cursor = Some(Vec2Px { x: 640, y: 400 });
    let velocity = topdown::player::system(&win(), 16, &keys, &press, &cursor, &mut player);
    assert_eq!(velocity, Vec2Fp { x: topdown::player::WALKING_SPEED, y: 0 });
    assert_eq!(player.base.offset(), OFFSET_RIGHT);
}
