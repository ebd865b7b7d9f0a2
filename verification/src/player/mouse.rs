use vstd::prelude::*;
use crate::fp::{
    Vec2Fp, Vec2Px, WindowSize, FP, clamp_unit, clamp_unit_spec, diagonal, dir_valid,
    lemma_clamp_norm, lemma_tdiv_bound, norm_sq, px_valid, tdiv, window_diag,
};
use super::MOUSE_WALKING_SENSITIVITY;
use super::control::{Control, ControlMode};
use super::frame::{FrameBase, facing_of, set_facing};

verus! {

/// Pointer-button state as sampled by the host this frame.
#[derive(Clone, Copy, PartialEq, Eq, Structural, Debug, Default)]
pub struct MouseButtons {
    pub pressed: bool,
    pub just_pressed: bool,
    pub just_released: bool,
}

/// The drag vector before clamping: the pointer's offset from the
/// anchor, scaled by the sensitivity and normalized by the window
/// diagonal, so that sensitivity is resolution-independent.
pub open spec fn raw_drag(cursor: Vec2Px, anchor: Vec2Px, win: WindowSize) -> Vec2Fp {
    let diag = window_diag(win);
    Vec2Fp {
        x: tdiv((cursor.x - anchor.x) * MOUSE_WALKING_SENSITIVITY * FP, diag) as i64,
        y: tdiv((cursor.y - anchor.y) * MOUSE_WALKING_SENSITIVITY * FP, diag) as i64,
    }
}

/// The direction a pointer drag produces: the raw drag, clamped to unit
/// length.
pub open spec fn drag_dir(cursor: Vec2Px, anchor: Vec2Px, win: WindowSize) -> Vec2Fp {
    clamp_unit_spec(raw_drag(cursor, anchor, win))
}

/// What one frame of pointer input does to the velocity, the facing and
/// the control state. While the keyboard owns the control, the pointer
/// is not consulted at all: no click re-anchors the drag or claims the
/// control, and velocity and facing are left as the keyboard set them.
pub open spec fn mouse_step(
    win: WindowSize,
    b: MouseButtons,
    cursor: Option<Vec2Px>,
    vel: Vec2Fp,
    facing: u32,
    ctl: Control,
) -> (Vec2Fp, u32, Control) {
    if ctl.mode == ControlMode::Keyboard {
        (vel, facing, ctl)
    } else {
        mouse_step_free(win, b, cursor, vel, facing, ctl)
    }
}

/// The pointer pass once the keyboard has no claim on the control.
pub open spec fn mouse_step_free(
    win: WindowSize,
    b: MouseButtons,
    cursor: Option<Vec2Px>,
    vel: Vec2Fp,
    facing: u32,
    ctl: Control,
) -> (Vec2Fp, u32, Control) {
    match cursor {
        Some(pos) => {
            let ctl1 = if b.just_pressed {
                Control { mode: ControlMode::Mouse, click_start_location: pos }
            } else {
                ctl
            };
            if ctl1.mode == ControlMode::Mouse && b.just_released {
                (
                    Vec2Fp { x: 0, y: 0 },
                    facing,
                    Control {
                        mode: ControlMode::Inactive,
                        click_start_location: ctl1.click_start_location,
                    },
                )
            } else if ctl1.mode == ControlMode::Mouse {
                let v1 = drag_dir(pos, ctl1.click_start_location, win);
                (v1, facing_of(v1, facing), ctl1)
            } else {
                (vel, facing, ctl1)
            }
        },
        None => {
            if b.just_pressed {
                (vel, facing, ctl)
            } else if ctl.mode == ControlMode::Mouse && b.just_released {
                (
                    Vec2Fp { x: 0, y: 0 },
                    facing,
                    Control {
                        mode: ControlMode::Inactive,
                        click_start_location: ctl.click_start_location,
                    },
                )
            } else if ctl.mode == ControlMode::Mouse {
                (vel, facing_of(vel, facing), ctl)
            } else {
                (vel, facing, ctl)
            }
        },
    }
}

/// Compute the drag direction for a held pointer.
fn drag(cursor: &Vec2Px, anchor: &Vec2Px, win: &WindowSize) -> (r: Vec2Fp)
    requires
        px_valid(*cursor),
        px_valid(*anchor),
        win.valid(),
    ensures
        r == drag_dir(*cursor, *anchor, *win),
        dir_valid(r),
        norm_sq(r) <= FP * FP + 2 * FP,
{
    let diag: i64 = diagonal(win);
    let dx: i64 = cursor.x - anchor.x;
    let dy: i64 = cursor.y - anchor.y;
    proof {
        lemma_tdiv_bound(dx * MOUSE_WALKING_SENSITIVITY * FP, diag as int);
        lemma_tdiv_bound(dy * MOUSE_WALKING_SENSITIVITY * FP, diag as int);
    }
    let rx: i64 = crate::fp::div_trunc(dx * MOUSE_WALKING_SENSITIVITY * FP, diag);
    let ry: i64 = crate::fp::div_trunc(dy * MOUSE_WALKING_SENSITIVITY * FP, diag);
    clamp_unit(Vec2Fp { x: rx, y: ry })
}

/// Resolve the pointer into a direction, facing and control state: a
/// press anchors the drag and claims the control, a release stops the
/// player and gives the control up, and while the button is held the
/// direction follows the pointer's offset from the anchor. The pointer
/// is consulted only when the keyboard left the control free.
pub fn input(
    win: &WindowSize,
    buttons: &MouseButtons,
    cursor: &Option<Vec2Px>,
    velocity: &mut Vec2Fp,
    frame: &mut FrameBase,
    control: &mut Control,
)
    requires
        win.valid(),
        old(frame).inv(),
        px_valid(old(control).click_start_location),
        dir_valid(*old(velocity)),
        norm_sq(*old(velocity)) <= FP * FP + 2 * FP,
        old(control).mode == ControlMode::Inactive ==> *old(velocity) == (Vec2Fp { x: 0, y: 0 }),
        *cursor matches Some(p) ==> px_valid(p),
    ensures
        final(frame).inv(),
        px_valid(final(control).click_start_location),
        dir_valid(*final(velocity)),
        norm_sq(*final(velocity)) <= FP * FP + 2 * FP,
        final(control).mode == ControlMode::Inactive ==> *final(velocity) == (Vec2Fp {
            x: 0,
            y: 0,
        }),
        ({
            let (v, f, c) = mouse_step(
                *win,
                *buttons,
                *cursor,
                *old(velocity),
                old(frame).spec_offset(),
                *old(control),
            );
            *final(velocity) == v && final(frame).spec_offset() == f && *final(control) == c
        }),
{
    // keyboard input takes precedence over any concurrent pointer
    // activity: while it owns the control this pass does nothing
    if control.mode == ControlMode::Keyboard {
        return ;
    }

    // a fresh press anchors the drag at the pointer; without a pointer
    // position this frame is skipped
    if buttons.just_pressed {
        match cursor {
            Some(pos) => {
                control.click_start_location = *pos;
                control.mode = ControlMode::Mouse;
            },
            None => {
                return ;
            },
        }
    }

    // releasing the button while the mouse owns the control stops the
    // player and gives the control up
    if control.mode == ControlMode::Mouse && buttons.just_released {
        control.mode = ControlMode::Inactive;
        *velocity = Vec2Fp { x: 0, y: 0 };
    } else if control.mode == ControlMode::Mouse {
        match cursor {
            Some(pos) => {
                *velocity = drag(pos, &control.click_start_location, win);
            },
            None => {
            },
        }
        // the facing follows the live direction, kept while not moving
        set_facing(frame, *velocity);
    }
}

/// The drag law: once the pointer is far enough from its anchor that
/// the raw drag leaves the unit circle, the resulting direction is
/// clamped to unit magnitude to fixed-point precision, however long the
/// drag.
pub proof fn lemma_long_drag_saturates(cursor: Vec2Px, anchor: Vec2Px, win: WindowSize)
    requires
        win.valid(),
        px_valid(cursor),
        px_valid(anchor),
        norm_sq(raw_drag(cursor, anchor, win)) > FP * FP,
    ensures
        FP * FP - 4 * FP - 1 <= norm_sq(drag_dir(cursor, anchor, win)) <= FP * FP + 2 * FP,
{
    let raw = raw_drag(cursor, anchor, win);
    assert(win.width * win.width >= 1 && win.height * win.height >= 1) by (nonlinear_arith)
        requires
            win.width >= 1,
            win.height >= 1,
    ;
    crate::fp::lemma_sqrt_floor_char(win.width * win.width + win.height * win.height);
    let diag = window_diag(win);
    assert(diag >= 1) by (nonlinear_arith)
        requires
            diag >= 0,
            (diag + 1) * (diag + 1) > 2,
    ;
    lemma_tdiv_bound((cursor.x - anchor.x) * MOUSE_WALKING_SENSITIVITY * FP, window_diag(win));
    lemma_tdiv_bound((cursor.y - anchor.y) * MOUSE_WALKING_SENSITIVITY * FP, window_diag(win));
    lemma_clamp_norm(raw);
}

} // verus!
