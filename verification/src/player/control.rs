use vstd::prelude::*;
use crate::fp::Vec2Px;

verus! {

/// Which input source currently owns the player's velocity. At most one
/// of keyboard and mouse drives the player at any instant; `Inactive`
/// means the player stands still.
#[derive(Clone, Copy, PartialEq, Eq, Structural, Debug)]
pub enum ControlMode {
    Inactive,
    Keyboard,
    Mouse,
}

/// Control state of the player: the active input source and, while a
/// pointer drag is in progress, the window position where it started.
#[derive(Clone, Copy, PartialEq, Eq, Structural, Debug)]
pub struct Control {
    pub mode: ControlMode,
    pub click_start_location: Vec2Px,
}

impl Default for ControlMode {
    fn default() -> (r: Self)
        ensures
            r == ControlMode::Inactive,
    {
        Self::Inactive
    }
}

impl Default for Control {
    fn default() -> (r: Self)
        ensures
            r.mode == ControlMode::Inactive,
            r.click_start_location == (Vec2Px { x: 0, y: 0 }),
    {
        Control { mode: ControlMode::Inactive, click_start_location: Vec2Px { x: 0, y: 0 } }
    }
}

} // verus!
