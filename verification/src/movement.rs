//! Input-driven movement decisions: the player's fixed per-frame step and
//! the camera's direction. The library decides the displacement from the held
//! keys; applying it to the rendered transforms (and, for the camera, scaling
//! it by the frame time and the camera speed) is the host's business.

use vstd::prelude::*;

verus! {

/// The player's fixed per-frame step while an arrow key is held, in
/// coordinate units (two per world unit). Like shape motion, it is not scaled
/// by the frame time.
pub const PLAYER_STEP: i64 = 10;

/// The displacement one frame of held keys gives along one axis: a step for
/// the positive key, minus a step for the negative key; opposite keys cancel.
pub open spec fn axis_step(negative: bool, positive: bool, step: int) -> int {
    (if positive {
        step
    } else {
        0
    }) - (if negative {
        step
    } else {
        0
    })
}

/// The player's displacement for one frame of held arrow keys.
pub fn player_movement_system(up: bool, down: bool, left: bool, right: bool) -> (delta: (i64, i64))
    ensures
        delta.0 == axis_step(left, right, PLAYER_STEP as int),
        delta.1 == axis_step(down, up, PLAYER_STEP as int),
{
    let mut dx: i64 = 0;
    let mut dy: i64 = 0;
    if up {
        dy = dy + PLAYER_STEP;
    }
    if down {
        dy = dy - PLAYER_STEP;
    }
    if left {
        dx = dx - PLAYER_STEP;
    }
    if right {
        dx = dx + PLAYER_STEP;
    }
    (dx, dy)
}

/// The camera's direction for one frame of held movement keys: one unit along
/// each axis, to be scaled by the camera speed and the frame time.
pub fn camera_direction(key_w: bool, key_a: bool, key_s: bool, key_d: bool) -> (direction: (
    i64,
    i64,
))
    ensures
        direction.0 == axis_step(key_a, key_d, 1),
        direction.1 == axis_step(key_s, key_w, 1),
{
    let mut dx: i64 = 0;
    let mut dy: i64 = 0;
    if key_w {
        dy = dy + 1;
    }
    if key_a {
        dx = dx - 1;
    }
    if key_s {
        dy = dy - 1;
    }
    if key_d {
        dx = dx + 1;
    }
    (dx, dy)
}

} // verus!
