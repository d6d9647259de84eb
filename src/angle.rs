use vstd::prelude::*;

use crate::scalar::Scalar;

verus! {

/// An angle, in the unit it was given in.
#[derive(Clone, Copy, Debug, PartialEq)]
pub enum Angle<T> {
    Radians(T),
    Degrees(T),
}

impl<T: Scalar> Angle<T> {
    pub open spec fn to_radians_spec(self) -> T {
        match self {
            Angle::Radians(r) => r,
            Angle::Degrees(d) => T::to_radians_spec(d),
        }
    }

    /// The angle in radians.
    pub fn to_radians(&self) -> (r: T)
        ensures
            r == self.to_radians_spec(),
    {
        match self {
            Angle::Radians(r) => *r,
            Angle::Degrees(d) => d.to_radians(),
        }
    }
}

} // verus!
