use vstd::prelude::*;

verus! {

/// A quaternion `w + xi + yj + zk`, used for rotations.
#[derive(Clone, Copy, Debug, PartialEq)]
pub struct Quat<T> {
    pub w: T,
    pub x: T,
    pub y: T,
    pub z: T,
}

impl<T> Quat<T> {
    pub fn new(w: T, x: T, y: T, z: T) -> (r: Self)
        ensures
            r == (Quat { w, x, y, z }),
    {
        Quat { w, x, y, z }
    }
}

} // verus!
