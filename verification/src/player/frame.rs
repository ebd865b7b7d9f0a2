use vstd::prelude::*;
use crate::fp::{Vec2Fp, dir_valid, iabs};

verus! {

/// Number of columns in each row of the walk-cycle sprite sheet.
pub const STEPS: u32 = 4;

/// Row starts of the sprite sheet: one row of `STEPS` frames per facing.
pub const OFFSET_DOWN: u32 = 0;
pub const OFFSET_LEFT: u32 = STEPS;
pub const OFFSET_RIGHT: u32 = 2 * STEPS;
pub const OFFSET_UP: u32 = 3 * STEPS;

/// The row start of the sprite-sheet row for the current facing.
#[derive(Clone, Copy, PartialEq, Eq, Structural, Debug)]
pub struct FrameBase {
    offset: u32,
}

/// The walk-cycle column within the current row.
#[derive(Clone, Copy, PartialEq, Eq, Structural, Debug)]
pub struct FrameStep {
    offset: u32,
}

impl FrameBase {
    /// The stored row start, for contracts.
    pub closed spec fn spec_offset(self) -> u32 {
        self.offset
    }

    /// The offset is always one of the four row starts.
    pub open spec fn inv(self) -> bool {
        self.spec_offset() == OFFSET_DOWN || self.spec_offset() == OFFSET_LEFT
            || self.spec_offset() == OFFSET_RIGHT || self.spec_offset() == OFFSET_UP
    }

    pub fn set_left(&mut self)
        ensures
            final(self).spec_offset() == OFFSET_LEFT,
            final(self).inv(),
    {
        self.offset = OFFSET_LEFT;
    }

    pub fn set_right(&mut self)
        ensures
            final(self).spec_offset() == OFFSET_RIGHT,
            final(self).inv(),
    {
        self.offset = OFFSET_RIGHT;
    }

    pub fn set_up(&mut self)
        ensures
            final(self).spec_offset() == OFFSET_UP,
            final(self).inv(),
    {
        self.offset = OFFSET_UP;
    }

    pub fn set_down(&mut self)
        ensures
            final(self).spec_offset() == OFFSET_DOWN,
            final(self).inv(),
    {
        self.offset = OFFSET_DOWN;
    }

    pub fn offset(&self) -> (r: u32)
        ensures
            r == self.spec_offset(),
    {
        self.offset
    }
}

impl Default for FrameBase {
    /// A fresh sprite faces down, the first row of the sheet.
    fn default() -> (r: Self)
        ensures
            r.spec_offset() == OFFSET_DOWN,
            r.inv(),
    {
        FrameBase { offset: OFFSET_DOWN }
    }
}

/// What one advance of the walk cycle does to the column.
pub open spec fn next_step(s: int) -> int {
    (s + 1) % (STEPS as int)
}

impl FrameStep {
    /// The stored column, for contracts.
    pub closed spec fn spec_offset(self) -> u32 {
        self.offset
    }

    /// The column always stays within the row.
    pub open spec fn inv(self) -> bool {
        self.spec_offset() < STEPS
    }

    /// Idle pose: the first column of the row.
    pub fn stop(&mut self)
        ensures
            final(self).spec_offset() == 0,
            final(self).inv(),
    {
        self.offset = 0;
    }

    /// Advance the walk cycle one column, wrapping to the start of the row.
    pub fn step(&mut self)
        requires
            old(self).inv(),
        ensures
            final(self).spec_offset() == next_step(old(self).spec_offset() as int),
            final(self).inv(),
    {
        self.offset = (self.offset + 1) % STEPS;
    }

    pub fn offset(&self) -> (r: u32)
        ensures
            r == self.spec_offset(),
    {
        self.offset
    }
}

impl Default for FrameStep {
    /// A fresh sprite starts on the idle column.
    fn default() -> (r: Self)
        ensures
            r.spec_offset() == 0,
            r.inv(),
    {
        FrameStep { offset: 0 }
    }
}

/// The facing a direction selects: the axis with the larger component
/// wins, ties go to the vertical axis, and a zero direction keeps the
/// facing it found.
pub open spec fn facing_of(v: Vec2Fp, was: u32) -> u32 {
    if iabs(v.x as int) > iabs(v.y as int) {
        if v.x > 0 {
            OFFSET_RIGHT
        } else {
            OFFSET_LEFT
        }
    } else if v.y > 0 {
        OFFSET_UP
    } else if v.y < 0 {
        OFFSET_DOWN
    } else {
        was
    }
}

/// Turn the sprite towards the direction it is moving.
pub fn set_facing(frame: &mut FrameBase, v: Vec2Fp)
    requires
        old(frame).inv(),
        dir_valid(v),
    ensures
        final(frame).inv(),
        final(frame).spec_offset() == facing_of(v, old(frame).spec_offset()),
{
    let ax: i64 = if v.x >= 0 {
        v.x
    } else {
        -v.x
    };
    let ay: i64 = if v.y >= 0 {
        v.y
    } else {
        -v.y
    };
    if ax > ay {
        if v.x > 0 {
            frame.set_right();
        } else {
            frame.set_left();
        }
    } else {
        if v.y > 0 {
            frame.set_up();
        } else if v.y < 0 {
            frame.set_down();
        }
    }
}

/// The law of the walk cycle: from any column, four advances of the
/// cycle return to the same column, so the animation loops.
pub proof fn lemma_step_cycle(s: u32)
    requires
        s < STEPS,
    ensures
        next_step(next_step(next_step(next_step(s as int)))) == s,
{
}

} // verus!
