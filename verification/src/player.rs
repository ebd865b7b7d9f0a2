pub mod animate;
pub mod control;
pub mod frame;
pub mod keyboard;
pub mod mouse;

use vstd::prelude::*;
use crate::fp::{Vec2Fp, Vec2Px, WindowSize, FP, dir_valid, px_valid};
use control::Control;
use frame::{FrameBase, FrameStep, next_step};
use keyboard::{KeyState, keyboard_step};
use mouse::{MouseButtons, mouse_step};

verus! {

/// How far the pointer must travel, as a fraction of the window
/// diagonal, before the drag direction saturates: the drag circle is
/// `1 / MOUSE_WALKING_SENSITIVITY` of the diagonal.
pub const MOUSE_WALKING_SENSITIVITY: i64 = 15;

/// Walking speed in fixed-point world units per second.
pub const WALKING_SPEED: i64 = 75_000;

/// Player sprite size in fixed-point world units.
pub const SPRITE_WIDTH: i64 = 12_000;
pub const SPRITE_HEIGHT: i64 = 23_000;

/// Period of the walk-cycle timer in milliseconds.
pub const STEP_DURATION_MS: u64 = 150;

/// Longest frame delta the timer accepts, one day in milliseconds;
/// keeps the accumulator far from overflow.
pub const MAX_DELTA_MS: u64 = 86_400_000;

/// A repeating timer with the walk-cycle period: it reports once per
/// frame whether the period elapsed during that frame, so frame
/// stepping is decoupled from the render rate.
#[derive(Clone, Copy, PartialEq, Eq, Structural, Debug)]
pub struct StepTimer {
    acc: u64,
}

/// Whether a tick of `delta_ms` makes the timer with accumulated time
/// `acc` fire.
pub open spec fn timer_fires(acc: u64, delta_ms: u64) -> bool {
    acc + delta_ms >= STEP_DURATION_MS
}

impl StepTimer {
    /// Time accumulated since the walk cycle last advanced, for
    /// contracts.
    pub closed spec fn spec_acc(self) -> u64 {
        self.acc
    }

    /// The accumulator always stays below the period.
    pub open spec fn inv(self) -> bool {
        self.spec_acc() < STEP_DURATION_MS
    }

    pub fn new() -> (r: StepTimer)
        ensures
            r.spec_acc() == 0,
            r.inv(),
    {
        StepTimer { acc: 0 }
    }

    /// Advance the timer by one frame's elapsed time; reports whether
    /// the period elapsed, and keeps the remainder for the next frame.
    pub fn tick(&mut self, delta_ms: u64) -> (finished: bool)
        requires
            old(self).inv(),
            delta_ms <= MAX_DELTA_MS,
        ensures
            final(self).inv(),
            finished == timer_fires(old(self).spec_acc(), delta_ms),
            final(self).spec_acc() == (if finished {
                (old(self).spec_acc() + delta_ms) % (STEP_DURATION_MS as int)
            } else {
                old(self).spec_acc() + delta_ms
            }),
    {
        let total: u64 = self.acc + delta_ms;
        if total >= STEP_DURATION_MS {
            self.acc = total % STEP_DURATION_MS;
            true
        } else {
            self.acc = total;
            false
        }
    }
}

impl Default for StepTimer {
    fn default() -> (r: Self)
        ensures
            r.spec_acc() == 0,
            r.inv(),
    {
        StepTimer { acc: 0 }
    }
}

/// All per-player state that the frame update reads and writes: the
/// control mode with the drag anchor, the current unit direction, the
/// walk-cycle timer, and the two halves of the sprite index.
#[derive(Clone, Copy, PartialEq, Eq, Structural, Debug)]
pub struct Player {
    pub control: Control,
    pub dir: Vec2Fp,
    pub timer: StepTimer,
    pub base: FrameBase,
    pub step: FrameStep,
}

impl Player {
    /// Well-formed player state: the sprite halves, timer and anchor
    /// are in range, the direction is at most one unit long (to
    /// fixed-point rounding), and a player without an active input
    /// source stands still.
    pub open spec fn wf(self) -> bool {
        self.base.inv() && self.step.inv() && self.timer.inv() && px_valid(
            self.control.click_start_location,
        ) && dir_valid(self.dir) && crate::fp::norm_sq(self.dir) <= FP * FP + 2 * FP && (
        self.control.mode == control::ControlMode::Inactive ==> self.dir == (Vec2Fp {
            x: 0,
            y: 0,
        }))
    }

    pub fn new() -> (r: Player)
        ensures
            r.wf(),
            r.control.mode == control::ControlMode::Inactive,
            r.dir == (Vec2Fp { x: 0, y: 0 }),
            r.timer.spec_acc() == 0,
            r.base.spec_offset() == frame::OFFSET_DOWN,
            r.step.spec_offset() == 0,
    {
        Player {
            control: Control::default(),
            dir: Vec2Fp { x: 0, y: 0 },
            timer: StepTimer::new(),
            base: FrameBase::default(),
            step: FrameStep::default(),
        }
    }

    /// The sprite-sheet index the renderer displays: the facing row's
    /// start plus the walk-cycle column.
    pub fn sprite_index(&self) -> (r: u32)
        requires
            self.wf(),
        ensures
            r == self.base.spec_offset() + self.step.spec_offset(),
    {
        self.base.offset() + self.step.offset()
    }
}

/// Where the player starts: the center of the map.
pub fn init_position() -> (r: Vec2Fp)
    ensures
        r.x == crate::map::MAP_WIDTH / 2,
        r.y == crate::map::MAP_HEIGHT / 2,
{
    Vec2Fp { x: crate::map::MAP_WIDTH / 2, y: crate::map::MAP_HEIGHT / 2 }
}

/// Velocity in fixed-point world units per second for a unit direction:
/// the direction scaled by the walking speed.
pub open spec fn scale_velocity(dir: Vec2Fp) -> Vec2Fp {
    Vec2Fp {
        x: (dir.x * (WALKING_SPEED / FP)) as i64,
        y: (dir.y * (WALKING_SPEED / FP)) as i64,
    }
}

/// The direction the resolvers leave after one frame: keyboard first,
/// and only what it leaves untouched falls to the pointer.
pub open spec fn resolved_dir(
    win: WindowSize,
    keys: KeyState,
    buttons: MouseButtons,
    cursor: Option<Vec2Px>,
    before: Player,
) -> (Vec2Fp, u32, Control) {
    let (v1, f1, c1) = keyboard_step(
        keys,
        before.dir,
        before.base.spec_offset(),
        before.control,
    );
    mouse_step(win, buttons, cursor, v1, f1, c1)
}

/// One frame of the player subsystem: resolve keyboard and pointer into
/// a direction, facing and control mode, advance the walk cycle when the
/// step timer fires, and return the velocity to hand to the motion
/// integrator.
pub fn system(
    win: &WindowSize,
    delta_ms: u64,
    keys: &KeyState,
    buttons: &MouseButtons,
    cursor: &Option<Vec2Px>,
    player: &mut Player,
) -> (velocity: Vec2Fp)
    requires
        win.valid(),
        delta_ms <= MAX_DELTA_MS,
        old(player).wf(),
        *cursor matches Some(p) ==> px_valid(p),
    ensures
        final(player).wf(),
        ({
            let (v, f, c) = resolved_dir(*win, *keys, *buttons, *cursor, *old(player));
            &&& final(player).dir == v
            &&& final(player).base.spec_offset() == f
            &&& final(player).control == c
            &&& velocity == scale_velocity(v)
            &&& final(player).timer.spec_acc() == (if timer_fires(
                old(player).timer.spec_acc(),
                delta_ms,
            ) {
                (old(player).timer.spec_acc() + delta_ms) % (STEP_DURATION_MS as int)
            } else {
                old(player).timer.spec_acc() + delta_ms
            })
            &&& final(player).step.spec_offset() == (if timer_fires(
                old(player).timer.spec_acc(),
                delta_ms,
            ) {
                if v != (Vec2Fp { x: 0, y: 0 }) {
                    next_step(old(player).step.spec_offset() as int)
                } else {
                    0
                }
            } else {
                old(player).step.spec_offset() as int
            })
        }),
{
    // resolve input: the keyboard claims the control first, the pointer
    // only drives what the keyboard leaves untouched
    keyboard::input(keys, &mut player.dir, &mut player.base, &mut player.control);
    mouse::input(win, buttons, cursor, &mut player.dir, &mut player.base, &mut player.control);

    // progress the walk-cycle timer; when it fires, take a step while
    // moving and fall back to the idle pose while standing
    let finished: bool = player.timer.tick(delta_ms);
    let moving: bool = player.dir.x != 0 || player.dir.y != 0;
    if finished {
        if moving {
            player.step.step();
        } else {
            player.step.stop();
        }
    }

    // scale the unit direction by the walking speed
    Vec2Fp { x: player.dir.x * (WALKING_SPEED / FP), y: player.dir.y * (WALKING_SPEED / FP) }
}

} // verus!
