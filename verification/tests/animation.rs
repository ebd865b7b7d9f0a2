use topdown::fp::{Vec2Fp, WindowSize};
use topdown::player::animate::{LastPos, animate};
use topdown::player::frame::{
    FrameBase, FrameStep, OFFSET_DOWN, OFFSET_LEFT, OFFSET_RIGHT, OFFSET_UP, STEPS,
};
use topdown::player::keyboard::KeyState;
use topdown::player::mouse::MouseButtons;
use topdown::player::{Player, StepTimer, WALKING_SPEED, system};

#[test]
fn frame_base_rows() {
    let mut base = FrameBase::default();
    assert_eq!(base.offset(), OFFSET_DOWN);
    base.set_left();
    assert_eq!(base.offset(), OFFSET_LEFT);
    base.set_right();
    assert_eq!(base.offset(), OFFSET_RIGHT);
    base.set_up();
    assert_eq!(base.offset(), OFFSET_UP);
    base.set_down();
    assert_eq!(base.offset(), OFFSET_DOWN);
}

#[test]
fn frame_step_cycles_and_stops() {
    let mut step = FrameStep::default();
    assert_eq!(step.offset(), 0);
    let mut seen = Vec::new();
    for _ in 0..5 {
        step.step();
        seen.push(step.offset());
    }
    // 0 -> 1 -> 2 -> 3 -> 0 -> 1
    assert_eq!(seen, vec![1, 2, 3, 0, 1]);
    step.stop();
    assert_eq!(step.offset(), 0);
}

#[test]
fn timer_gates_on_its_period() {
    let mut timer = StepTimer::new();
    assert!(!timer.tick(100));
    assert!(timer.tick(100)); // 200 ms accumulated: fires, keeps 50
    assert!(!timer.tick(99)); // 149 ms
    assert!(timer.tick(1)); // exactly the period
}

fn win() -> WindowSize {
    WindowSize { width: 1280, height: 800 }
}

fn idle_mouse() -> MouseButtons {
    MouseButtons { pressed: false, just_pressed: false, just_released: false }
}

#[test]
fn walk_cycle_steps_through_all_columns_and_resets() {
    let mut player = Player::new();
    let keys = KeyState { d: true, ..Default::default() };

    // each 150 ms frame advances the walk cycle one column
    let mut indices = Vec::new();
    for _ in 0..4 {
        system(&win(), 150, &keys, &idle_mouse(), &None, &mut player);
        indices.push(player.sprite_index());
    }
    // the right-facing row starts at column 8
    assert_eq!(indices, vec![9, 10, 11, 8]);

    // once the keys are released the idle pose returns immediately on
    // the next elapsed tick, whatever the facing row
    let released = KeyState::default();
    system(&win(), 150, &released, &idle_mouse(), &None, &mut player);
    assert_eq!(player.sprite_index(), OFFSET_RIGHT);
}

#[test]
fn frames_hold_still_between_timer_ticks() {
    let mut player = Player::new();
    let keys = KeyState { d: true, ..Default::default() };
    system(&win(), 150, &keys, &idle_mouse(), &None, &mut player);
    let before = player.sprite_index();
    // 60 ms later the timer has not elapsed: the column holds
    system(&win(), 60, &keys, &idle_mouse(), &None, &mut player);
    assert_eq!(player.sprite_index(), before);
    // another 90 ms completes the period
    system(&win(), 90, &keys, &idle_mouse(), &None, &mut player);
    assert_ne!(player.sprite_index(), before);
}

#[test]
fn system_velocity_is_direction_times_walking_speed() {
    let mut player = Player::new();
    let keys = KeyState { d: true, ..Default::default() };
    let velocity = system(&win(), 16, &keys, &idle_mouse(), &None, &mut player);
    assert_eq!(velocity, Vec2Fp { x: WALKING_SPEED, y: 0 });

    let diagonal = KeyState { w: true, d: true, ..Default::default() };
    let velocity = system(&win(), 16, &diagonal, &idle_mouse(), &None, &mut player);
    assert_eq!(velocity, Vec2Fp { x: 707 * 75, y: 707 * 75 });
}

#[test]
fn spawned_entity_shows_first_frame() {
    let mut timer = StepTimer::new();
    let mut index: u32 = 7;
    let mut last = LastPos(None);
    animate(150, Vec2Fp { x: 100, y: 100 }, &mut timer, &mut index, &mut last);
    assert_eq!(index, 0);
    assert_eq!(last.0, Some(Vec2Fp { x: 100, y: 100 }));
}

#[test]
fn derived_velocity_steps_and_faces() {
    let mut timer = StepTimer::new();
    let mut index: u32 = 0;
    let mut last = LastPos(Some(Vec2Fp { x: 0, y: 0 }));
    // moved right since the last tick, timer fires
    animate(150, Vec2Fp { x: 5_000, y: 0 }, &mut timer, &mut index, &mut last);
    assert_eq!(index, OFFSET_RIGHT + 1);
    // still: the cycle rests on the idle column, the facing row is kept
    animate(150, Vec2Fp { x: 5_000, y: 0 }, &mut timer, &mut index, &mut last);
    assert_eq!(index, OFFSET_RIGHT);
    // moving up, but between timer ticks: the index holds
    animate(10, Vec2Fp { x: 5_000, y: 9_000 }, &mut timer, &mut index, &mut last);
    assert_eq!(index, OFFSET_RIGHT);
    // the up movement is picked up on the next elapsed tick
    animate(140, Vec2Fp { x: 5_000, y: 18_000 }, &mut timer, &mut index, &mut last);
    assert_eq!(index, OFFSET_UP + 1);
}

#[test]
fn walk_cycle_has_four_columns() {
    assert_eq!(STEPS, 4);
    let mut step = FrameStep::default();
    for _ in 0..STEPS {
        step.step();
    }
    assert_eq!(step.offset(), 0);
}
