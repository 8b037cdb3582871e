//! Frame-loop decision logic: which way a key combination moves the camera,
//! and the framerate figure shown on screen.
//!
//! The host's event loop polls the key states and the frame time, asks these
//! functions what to do, and performs the movement and the text rebuild
//! itself; no I/O happens here.

use vstd::prelude::*;

verus! {

/// The signed X direction a left/right key pair commands: `-1` for left
/// alone, `1` for right alone, `0` when neither or both are down.
pub open spec fn x_sign_spec(left: bool, right: bool) -> i8 {
    if left && !right {
        -1i8
    } else if right && !left {
        1i8
    } else {
        0i8
    }
}

/// The signed Y direction an up/down key pair commands, positive up.
pub open spec fn y_sign_spec(up: bool, down: bool) -> i8 {
    if up && !down {
        1i8
    } else if down && !up {
        -1i8
    } else {
        0i8
    }
}

/// One camera movement step: a unit direction per axis, and whether the
/// step is diagonal (both axes move), in which case the host scales the
/// speed for the diagonal.
#[derive(Clone, Copy, Debug, PartialEq, Eq, Structural)]
pub struct MoveStep {
    pub x_sign: i8,
    pub y_sign: i8,
    pub diagonal: bool,
}

/// Decides the camera movement for one frame from the four arrow-key
/// states. Movement happens exactly when one axis has a single key down;
/// each axis moves by the sign of its key pair, and a step on both axes at
/// once is marked diagonal.
pub fn movement_from_keys(left: bool, right: bool, up: bool, down: bool) -> (r: Option<MoveStep>)
    ensures
        r is Some <==> (left != right || up != down),
        r is Some ==> r->0 == (MoveStep {
            x_sign: x_sign_spec(left, right),
            y_sign: y_sign_spec(up, down),
            diagonal: x_sign_spec(left, right) != 0 && y_sign_spec(up, down) != 0,
        }),
{
    match (left, right, up, down) {
        (true, false, false, false) | (true, false, true, true) => Some(
            MoveStep { x_sign: -1, y_sign: 0, diagonal: false },
        ),
        (false, true, false, false) | (false, true, true, true) => Some(
            MoveStep { x_sign: 1, y_sign: 0, diagonal: false },
        ),
        (false, false, true, false) | (true, true, true, false) => Some(
            MoveStep { x_sign: 0, y_sign: 1, diagonal: false },
        ),
        (false, false, false, true) | (true, true, false, true) => Some(
            MoveStep { x_sign: 0, y_sign: -1, diagonal: false },
        ),
        (true, false, true, false) => Some(MoveStep { x_sign: -1, y_sign: 1, diagonal: true }),
        (false, true, true, false) => Some(MoveStep { x_sign: 1, y_sign: 1, diagonal: true }),
        (true, false, false, true) => Some(MoveStep { x_sign: -1, y_sign: -1, diagonal: true }),
        (false, true, false, true) => Some(MoveStep { x_sign: 1, y_sign: -1, diagonal: true }),
        _ => None,
    }
}

/// The framerate figure for a frame that took `millis` milliseconds: whole
/// frames per second, with a zero frame time read as one millisecond so the
/// division is defined. Never above 1000.
pub fn framerate_of_millis(millis: u128) -> (r: u32)
    ensures
        r as int == 1000int / (if millis == 0 {
            1int
        } else {
            millis as int
        }),
        r <= 1000,
{
    let m: u128 = if millis == 0 {
        1
    } else {
        millis
    };
    (1000 / m) as u32
}

} // verus!
