//! How the held keys move the camera.

use vstd::prelude::*;

verus! {

/// The direction that the camera moves in, by axis: to the right and down
/// are positive. Of two opposite keys that are both held, right wins over
/// left and up over down.
pub open spec fn spec_camera_direction(
    right: bool,
    left: bool,
    up: bool,
    down: bool,
) -> Option<(i8, i8)> {
    let x: i8 = if right {
        1i8
    } else if left {
        -1i8
    } else {
        0i8
    };
    let y: i8 = if up {
        -1i8
    } else if down {
        1i8
    } else {
        0i8
    };
    if right || left || up || down {
        Some((x, y))
    } else {
        None
    }
}

/// The direction to move the camera in while the given keys are held, or
/// nothing where none of them is.
pub fn camera_direction(right: bool, left: bool, up: bool, down: bool) -> (direction: Option<
    (i8, i8),
>)
    ensures
        direction == spec_camera_direction(right, left, up, down),
{
    let mut x: i8 = 0;
    let mut y: i8 = 0;
    let mut moved = false;
    if right {
        x = 1;
        moved = true;
    } else if left {
        x = -1;
        moved = true;
    }
    if up {
        y = -1;
        moved = true;
    } else if down {
        y = 1;
        moved = true;
    }
    if moved {
        Some((x, y))
    } else {
        None
    }
}

} // verus!
