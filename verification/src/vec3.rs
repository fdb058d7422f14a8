use vstd::prelude::*;

verus! {

/// Largest world coordinate magnitude the per-tick entry points accept.
/// Keeps every intermediate product comfortably inside `i64`.
pub const MAX_WORLD: i64 = 0x4_0000_0000;

/// Magnitude of a coordinate.
pub open spec fn spec_abs(v: int) -> int {
    if v >= 0 {
        v
    } else {
        -v
    }
}

/// A point or direction in world space, in whole world units (pixels).
/// World Y grows upward; rows of the level text grow downward.
#[derive(Clone, Copy, Debug, PartialEq, Eq, Structural)]
pub struct Vec3 {
    pub x: i64,
    pub y: i64,
    pub z: i64,
}

impl Vec3 {
    pub fn new(x: i64, y: i64, z: i64) -> (v: Vec3)
        ensures
            v == (Vec3 { x, y, z }),
    {
        Vec3 { x, y, z }
    }
}

} // verus!
