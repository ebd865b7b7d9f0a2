use vstd::prelude::*;
use crate::fp::{Vec2Fp, iabs};
use super::{StepTimer, MAX_DELTA_MS, timer_fires};
use super::frame::{STEPS, OFFSET_DOWN, OFFSET_LEFT, OFFSET_RIGHT, OFFSET_UP};

verus! {

/// Bound on the world coordinates the animation accepts.
pub const MAX_ANIM_COORD: i64 = 1_000_000_000_000;

/// The world position recorded on the previous tick, used to derive an
/// implicit velocity when the position is driven externally; `None`
/// until the entity has seen its first tick.
#[derive(Clone, Copy, PartialEq, Eq, Structural, Debug, Default)]
pub struct LastPos(pub Option<Vec2Fp>);

impl LastPos {
    pub open spec fn wf(self) -> bool {
        match self.0 {
            Some(p) => -MAX_ANIM_COORD <= p.x <= MAX_ANIM_COORD && -MAX_ANIM_COORD <= p.y
                <= MAX_ANIM_COORD,
            None => true,
        }
    }
}

/// The sprite index after a tick with a known previous position: when
/// the timer fires while moving, the walk cycle advances and the facing
/// is recomputed from the movement since the last tick; when it fires
/// at rest, only the column returns to the idle pose and the facing row
/// is kept; between ticks the index is untouched.
pub open spec fn animate_index(index: int, fired: bool, v: Vec2Fp) -> int {
    let step = index % (STEPS as int);
    let base = index - step;
    if fired {
        if v != (Vec2Fp { x: 0, y: 0 }) {
            let step2: int = (step + 1) % (STEPS as int);
            let base2: int = if iabs(v.x as int) > iabs(v.y as int) {
                if v.x > 0 {
                    OFFSET_RIGHT as int
                } else {
                    OFFSET_LEFT as int
                }
            } else {
                if v.y > 0 {
                    OFFSET_UP as int
                } else {
                    OFFSET_DOWN as int
                }
            };
            base2 + step2
        } else {
            base
        }
    } else {
        index
    }
}

/// Advance the walk-cycle animation of an entity whose position is
/// driven externally: the velocity is the difference of the current
/// world position against the previous tick's, and an entity that just
/// spawned shows the first frame and computes no direction.
pub fn animate(
    delta_ms: u64,
    global: Vec2Fp,
    timer: &mut StepTimer,
    sprite_index: &mut u32,
    last_pos: &mut LastPos,
)
    requires
        old(timer).inv(),
        delta_ms <= MAX_DELTA_MS,
        *old(sprite_index) < 4 * STEPS,
        -MAX_ANIM_COORD <= global.x <= MAX_ANIM_COORD,
        -MAX_ANIM_COORD <= global.y <= MAX_ANIM_COORD,
        old(last_pos).wf(),
    ensures
        final(timer).inv(),
        final(timer).spec_acc() == (if timer_fires(old(timer).spec_acc(), delta_ms) {
            (old(timer).spec_acc() + delta_ms) % (super::STEP_DURATION_MS as int)
        } else {
            old(timer).spec_acc() + delta_ms
        }),
        *final(sprite_index) == (match old(last_pos).0 {
            Some(p) => animate_index(
                *old(sprite_index) as int,
                timer_fires(old(timer).spec_acc(), delta_ms),
                Vec2Fp { x: (global.x - p.x) as i64, y: (global.y - p.y) as i64 },
            ),
            None => 0,
        }),
        *final(sprite_index) < 4 * STEPS,
        final(last_pos).0 == Some(global),
        final(last_pos).wf(),
{
    // progress time
    let fired: bool = timer.tick(delta_ms);

    match last_pos.0 {
        Some(p) => {
            let vx: i64 = global.x - p.x;
            let vy: i64 = global.y - p.y;

            // current animation frame
            let mut step_offset: u32 = *sprite_index % STEPS;
            let mut base_offset: u32 = *sprite_index - step_offset;

            if fired {
                if vx != 0 || vy != 0 {
                    // take a step, and recompute the direction only
                    // when taking one, to reduce jitter
                    step_offset = (step_offset + 1) % STEPS;

                    let ax: i64 = if vx >= 0 {
                        vx
                    } else {
                        -vx
                    };
                    let ay: i64 = if vy >= 0 {
                        vy
                    } else {
                        -vy
                    };
                    if ax > ay {
                        // moving horizontally
                        if vx > 0 {
                            base_offset = OFFSET_RIGHT;
                        } else {
                            base_offset = OFFSET_LEFT;
                        }
                    } else {
                        // moving vertically
                        if vy > 0 {
                            base_offset = OFFSET_UP;
                        } else {
                            base_offset = OFFSET_DOWN;
                        }
                    }
                } else {
                    // at rest: the idle pose is the first frame of the
                    // facing row, and the row itself is kept
                    step_offset = 0;
                }
            }

            *sprite_index = base_offset + step_offset;
        },
        None => {
            // the entity just spawned: reset to the first frame
            *sprite_index = 0;
        },
    }

    last_pos.0 = Some(global);
}

} // verus!
