//! The logical part of input mapping: which held keys move the camera, in
//! which local direction and by how many steps, and whether mouse look is on.
use vstd::prelude::*;
use crate::bits::IVec3;

verus! {

/// Steps per held movement key.
pub const WALK_STEP: i32 = 1;

/// Steps per held movement key while the sprint modifier is held.
pub const SPRINT_STEP: i32 = 10;

/// One frame's input: which of the relevant keys and buttons are held.
#[derive(Clone, Copy, Debug, PartialEq, Eq, Structural)]
pub struct InputState {
    /// The sprint modifier (either shift key).
    pub sprint: bool,
    /// Move forward (+x).
    pub forward: bool,
    /// Move back (-x).
    pub back: bool,
    /// Move left (-y).
    pub left: bool,
    /// Move right (+y).
    pub right: bool,
    /// Move up (+z).
    pub up: bool,
    /// Move down (-z).
    pub down: bool,
    /// The mouse-look button.
    pub look: bool,
}

/// What a frame's input asks of the camera: a local wish direction, in
/// steps, and whether the mouse movement turns the camera.
#[derive(Clone, Copy, Debug, PartialEq, Eq, Structural)]
pub struct InputPlan {
    pub wish_dir: IVec3,
    pub look: bool,
}

/// The step of one held key.
pub open spec fn step_of(sprint: bool) -> int {
    if sprint {
        SPRINT_STEP as int
    } else {
        WALK_STEP as int
    }
}

/// The contribution of a pair of opposite keys along one axis.
pub open spec fn axis_of(pos: bool, neg: bool, step: int) -> int {
    (if pos { step } else { 0 }) - (if neg { step } else { 0 })
}

impl InputState {
    /// A state with nothing held.
    pub fn idle() -> (r: InputState)
        ensures
            !r.sprint && !r.forward && !r.back && !r.left && !r.right && !r.up && !r.down
                && !r.look,
    {
        InputState {
            sprint: false,
            forward: false,
            back: false,
            left: false,
            right: false,
            up: false,
            down: false,
            look: false,
        }
    }
}

fn axis(pos: bool, neg: bool, step: i32) -> (r: i32)
    requires
        0 <= step <= SPRINT_STEP,
    ensures
        r == axis_of(pos, neg, step as int),
{
    let mut v: i32 = 0;
    if pos {
        v = v + step;
    }
    if neg {
        v = v - step;
    }
    v
}

/// Maps a frame's held keys to a wish direction: forward/back along x,
/// right/left along y, up/down along z, one step per key (ten with sprint),
/// opposite keys cancelling; mouse look is on exactly when its button is held.
pub fn plan_input(input: &InputState) -> (r: InputPlan)
    ensures
        r.wish_dir.x == axis_of(input.forward, input.back, step_of(input.sprint)),
        r.wish_dir.y == axis_of(input.right, input.left, step_of(input.sprint)),
        r.wish_dir.z == axis_of(input.up, input.down, step_of(input.sprint)),
        r.look == input.look,
{
    let step: i32 = if input.sprint { SPRINT_STEP } else { WALK_STEP };
    InputPlan {
        wish_dir: IVec3 {
            x: axis(input.forward, input.back, step),
            y: axis(input.right, input.left, step),
            z: axis(input.up, input.down, step),
        },
        look: input.look,
    }
}

} // verus!
