use vstd::prelude::*;

verus! {

use crate::vec3::Vec3i;

/// Camera pan speed, in scene units per second.
pub const PAN_SPEED: i64 = 2;

/// Camera rotation speed, in degrees per second.
pub const ROTATE_SPEED_DEG: i64 = 45;

/// The pan keys held down during one frame. Forward/back move along the
/// view's z axis, left/right along x, down/up along y.
#[derive(Clone, Copy, Debug, PartialEq, Eq, Structural)]
pub struct PanKeys {
    pub forward: bool,
    pub back: bool,
    pub left: bool,
    pub right: bool,
    pub down: bool,
    pub up: bool,
}

/// The net contribution of one opposed key pair: `1` for the positive key
/// alone, `-1` for the negative key alone, `0` when neither or both are held.
pub open spec fn sign_of(pos: bool, neg: bool) -> int {
    (if pos {
        1int
    } else {
        0int
    }) - (if neg {
        1int
    } else {
        0int
    })
}

/// The camera-space pan direction for one frame: one unit along each axis
/// whose key pair does not cancel. The caller scales it by the frame's time
/// step and the pan speed, and rotates it into world space; a zero result
/// means the camera does not move this frame.
pub fn pan_direction(keys: PanKeys) -> (r: Vec3i)
    ensures
        r.x == sign_of(keys.right, keys.left),
        r.y == sign_of(keys.up, keys.down),
        r.z == sign_of(keys.back, keys.forward),
        r == (Vec3i { x: 0, y: 0, z: 0 }) <==> (keys.right == keys.left && keys.up == keys.down
            && keys.back == keys.forward),
{
    let mut x: i64 = 0;
    let mut y: i64 = 0;
    let mut z: i64 = 0;
    if keys.forward {
        z = z - 1;
    }
    if keys.back {
        z = z + 1;
    }
    if keys.left {
        x = x - 1;
    }
    if keys.right {
        x = x + 1;
    }
    if keys.down {
        y = y - 1;
    }
    if keys.up {
        y = y + 1;
    }
    Vec3i { x, y, z }
}

/// The rotation keys held down during one frame: one toggle per axis, and
/// whether a shift key reverses the turn.
#[derive(Clone, Copy, Debug, PartialEq, Eq, Structural)]
pub struct RotateKeys {
    pub x: bool,
    pub y: bool,
    pub z: bool,
    pub shift: bool,
}

/// How far to turn about each axis this frame, in steps of the frame's angle
/// increment: `1` forward, `-1` reversed, `0` for an axis whose key is up.
#[derive(Clone, Copy, Debug, PartialEq, Eq, Structural)]
pub struct RotationSteps {
    pub x_sign: i64,
    pub y_sign: i64,
    pub z_sign: i64,
}

/// The turn direction for one axis: nothing unless the axis key is held,
/// reversed while shift is held.
pub open spec fn axis_sign(pressed: bool, shift: bool) -> int {
    if !pressed {
        0
    } else if shift {
        -1
    } else {
        1
    }
}

/// The per-axis turn directions for one frame. The caller multiplies each
/// sign by the frame's angle increment and composes the three axis rotations;
/// all signs zero means the camera orientation is left untouched this frame.
pub fn rotation_steps(keys: RotateKeys) -> (r: RotationSteps)
    ensures
        r.x_sign == axis_sign(keys.x, keys.shift),
        r.y_sign == axis_sign(keys.y, keys.shift),
        r.z_sign == axis_sign(keys.z, keys.shift),
        (r.x_sign == 0 && r.y_sign == 0 && r.z_sign == 0) <==> (!keys.x && !keys.y && !keys.z),
{
    let sign: i64 = if keys.shift {
        -1
    } else {
        1
    };
    RotationSteps {
        x_sign: if keys.x {
            sign
        } else {
            0
        },
        y_sign: if keys.y {
            sign
        } else {
            0
        },
        z_sign: if keys.z {
            sign
        } else {
            0
        },
    }
}

} // verus!
