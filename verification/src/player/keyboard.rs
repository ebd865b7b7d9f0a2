use vstd::prelude::*;
use crate::fp::{Vec2Fp, FP, iabs, norm_sq};
use super::control::{Control, ControlMode};
use super::frame::{FrameBase, OFFSET_DOWN, OFFSET_LEFT, OFFSET_RIGHT, OFFSET_UP};

verus! {

/// Fixed-point component of a unit vector on a diagonal: the largest
/// integer whose square, doubled, stays within `FP * FP`.
pub const DIAG: i64 = 707;

/// Key-down state of the direction keys, both the WASD and the arrow-key
/// aliases, as sampled by the host this frame.
#[derive(Clone, Copy, PartialEq, Eq, Structural, Debug, Default)]
pub struct KeyState {
    pub w: bool,
    pub a: bool,
    pub s: bool,
    pub d: bool,
    pub up: bool,
    pub down: bool,
    pub left: bool,
    pub right: bool,
}

impl KeyState {
    pub open spec fn spec_up(self) -> bool {
        self.w || self.up
    }

    pub open spec fn spec_down(self) -> bool {
        self.s || self.down
    }

    pub open spec fn spec_left(self) -> bool {
        self.a || self.left
    }

    pub open spec fn spec_right(self) -> bool {
        self.d || self.right
    }
}

/// Contribution of one axis: the axis is active only when exactly one of
/// its two keys is down; pressing both cancels.
pub open spec fn axis(neg: bool, pos: bool) -> int {
    if neg != pos {
        if neg {
            -1
        } else {
            1
        }
    } else {
        0
    }
}

pub open spec fn axis_x(ks: KeyState) -> int {
    axis(ks.spec_left(), ks.spec_right())
}

pub open spec fn axis_y(ks: KeyState) -> int {
    axis(ks.spec_down(), ks.spec_up())
}

/// The unit direction, in fixed point, for a pair of axis contributions:
/// zero, axis-aligned of magnitude `FP`, or diagonal with components
/// `DIAG` so that diagonal walking is no faster than axis-aligned.
pub open spec fn unit_dir(dx: int, dy: int) -> Vec2Fp {
    if dx == 0 && dy == 0 {
        Vec2Fp { x: 0, y: 0 }
    } else if dx == 0 {
        Vec2Fp { x: 0, y: if dy > 0 { FP } else { (-FP) as i64 } }
    } else if dy == 0 {
        Vec2Fp { x: if dx > 0 { FP } else { (-FP) as i64 }, y: 0 }
    } else {
        Vec2Fp {
            x: if dx > 0 { DIAG } else { (-DIAG) as i64 },
            y: if dy > 0 { DIAG } else { (-DIAG) as i64 },
        }
    }
}

/// The keyboard direction for a key state: XOR per axis, then normalized
/// to unit length.
pub open spec fn keyboard_dir(ks: KeyState) -> Vec2Fp {
    unit_dir(axis_x(ks), axis_y(ks))
}

/// The facing row that the keyboard resolver leaves behind: the vertical
/// axis wins on diagonals, and with no axis active the facing is kept.
pub open spec fn keyboard_facing(ks: KeyState, was: u32) -> u32 {
    if axis_y(ks) != 0 {
        if axis_y(ks) < 0 {
            OFFSET_DOWN
        } else {
            OFFSET_UP
        }
    } else if axis_x(ks) != 0 {
        if axis_x(ks) < 0 {
            OFFSET_LEFT
        } else {
            OFFSET_RIGHT
        }
    } else {
        was
    }
}

/// What one frame of keyboard input does to the velocity, the facing
/// and the control state.
pub open spec fn keyboard_step(ks: KeyState, vel: Vec2Fp, facing: u32, ctl: Control) -> (
    Vec2Fp,
    u32,
    Control,
) {
    let d = keyboard_dir(ks);
    let f1 = keyboard_facing(ks, facing);
    if d != (Vec2Fp { x: 0, y: 0 }) {
        (
            d,
            f1,
            Control {
                mode: ControlMode::Keyboard,
                click_start_location: ctl.click_start_location,
            },
        )
    } else if ctl.mode == ControlMode::Keyboard {
        (
            Vec2Fp { x: 0, y: 0 },
            f1,
            Control {
                mode: ControlMode::Inactive,
                click_start_location: ctl.click_start_location,
            },
        )
    } else {
        (vel, f1, ctl)
    }
}

/// Every direction the keyboard can resolve is at most one unit long.
pub proof fn lemma_unit_dir_norm(dx: int, dy: int)
    ensures
        norm_sq(unit_dir(dx, dy)) <= FP * FP,
{
    let d = unit_dir(dx, dy);
    assert(norm_sq(d) <= FP * FP) by (nonlinear_arith)
        requires
            (d.x == 0 || d.x == 1000 || d.x == -1000 || d.x == 707 || d.x == -707) && (d.y == 0
                || d.y == 1000 || d.y == -1000 || d.y == 707 || d.y == -707) && !(iabs(
                d.x as int,
            ) == 1000 && d.y != 0) && !(iabs(d.y as int) == 1000 && d.x != 0),
    ;
}

/// Resolve the keyboard into a direction, facing and control mode.
/// Any keyboard movement takes the control away from the mouse; when the
/// keyboard falls silent while it owned the control, the player stops.
pub fn input(keys: &KeyState, velocity: &mut Vec2Fp, frame: &mut FrameBase, control: &mut Control)
    requires
        old(frame).inv(),
        crate::fp::dir_valid(*old(velocity)),
        norm_sq(*old(velocity)) <= FP * FP + 2 * FP,
        old(control).mode == ControlMode::Inactive ==> *old(velocity) == (Vec2Fp { x: 0, y: 0 }),
    ensures
        final(frame).inv(),
        crate::fp::dir_valid(*final(velocity)),
        norm_sq(*final(velocity)) <= FP * FP + 2 * FP,
        final(control).mode == ControlMode::Inactive ==> *final(velocity) == (Vec2Fp {
            x: 0,
            y: 0,
        }),
        ({
            let (v, f, c) = keyboard_step(
                *keys,
                *old(velocity),
                old(frame).spec_offset(),
                *old(control),
            );
            *final(velocity) == v && final(frame).spec_offset() == f && *final(control) == c
        }),
{
    let l: bool = keys.a || keys.left;
    let r: bool = keys.d || keys.right;
    let u: bool = keys.w || keys.up;
    let d: bool = keys.s || keys.down;

    let mut dx: i64 = 0;
    let mut dy: i64 = 0;

    // horizontal axis: active only when exactly one key is down
    if l != r {
        if l {
            frame.set_left();
            dx = -1;
        } else {
            frame.set_right();
            dx = 1;
        }
    }

    // vertical axis, likewise; its facing wins on diagonals
    if u != d {
        if d {
            frame.set_down();
            dy = -1;
        } else {
            frame.set_up();
            dy = 1;
        }
    }

    // any keyboard movement claims the control
    if dx != 0 || dy != 0 {
        control.mode = ControlMode::Keyboard;
    }

    // while the keyboard owns the control, write the direction; once it
    // falls silent, release the control and stop
    if control.mode == ControlMode::Keyboard {
        if dx == 0 && dy == 0 {
            control.mode = ControlMode::Inactive;
            *velocity = Vec2Fp { x: 0, y: 0 };
        } else if dx == 0 {
            *velocity = Vec2Fp { x: 0, y: if dy > 0 { FP } else { -FP } };
        } else if dy == 0 {
            *velocity = Vec2Fp { x: if dx > 0 { FP } else { -FP }, y: 0 };
        } else {
            *velocity = Vec2Fp {
                x: if dx > 0 { DIAG } else { -DIAG },
                y: if dy > 0 { DIAG } else { -DIAG },
            };
        }
    }
    proof {
        lemma_unit_dir_norm(axis_x(*keys), axis_y(*keys));
    }
}

/// Opposing keys cancel: whenever both keys of an axis are down, that
/// axis contributes exactly zero to the direction.
pub proof fn lemma_opposing_keys_cancel(ks: KeyState)
    ensures
        ks.spec_left() && ks.spec_right() ==> keyboard_dir(ks).x == 0,
        ks.spec_up() && ks.spec_down() ==> keyboard_dir(ks).y == 0,
{
}

/// Diagonal movement is unit length to fixed-point precision: its
/// squared magnitude lies within one part in a thousand of `FP * FP`,
/// far below the `2 * FP * FP` of an unnormalized diagonal.
pub proof fn lemma_diagonal_unit_length(ks: KeyState)
    requires
        axis_x(ks) != 0,
        axis_y(ks) != 0,
    ensures
        norm_sq(keyboard_dir(ks)) == 2 * DIAG * DIAG,
        (FP - 1) * (FP - 1) < norm_sq(keyboard_dir(ks)) <= FP * FP,
{
    let d = keyboard_dir(ks);
    assert(d.x * d.x == 499849 && d.y * d.y == 499849) by (nonlinear_arith)
        requires
            (d.x == 707 || d.x == -707) && (d.y == 707 || d.y == -707),
    ;
    assert((FP - 1) * (FP - 1) == 998001) by (nonlinear_arith)
        requires
            FP == 1000,
    ;
    assert(FP * FP == 1000000) by (nonlinear_arith)
        requires
            FP == 1000,
    ;
    assert(2 * DIAG * DIAG == 999698) by (nonlinear_arith)
        requires
            DIAG == 707,
    ;
}

} // verus!
