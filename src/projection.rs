use vstd::prelude::*;

use crate::mat4::Mat4;
use crate::scalar::{two, two_spec, Scalar};

verus! {

/// The off-center perspective projection of the view volume bounded by
/// the planes `left`, `right`, `bottom`, `top`, `near` and `far`.
pub open spec fn frustum_spec<T: Scalar>(left: T, right: T, bottom: T, top: T, near: T, far: T) -> Mat4<T> {
    let (z, one, two) = (T::zero_spec(), T::one_spec(), two_spec::<T>());
    let width = T::sub_spec(right, left);
    let height = T::sub_spec(top, bottom);
    let depth = T::sub_spec(far, near);
    Mat4::new_spec(
        T::div_spec(T::mul_spec(two, near), width),
        z,
        z,
        z,
        z,
        T::div_spec(T::mul_spec(two, near), height),
        z,
        z,
        T::div_spec(T::add_spec(right, left), width),
        T::div_spec(T::add_spec(top, bottom), height),
        T::div_spec(T::neg_spec(T::add_spec(far, near)), depth),
        T::neg_spec(one),
        z,
        z,
        T::div_spec(T::neg_spec(T::mul_spec(T::mul_spec(two, far), near)), depth),
        z,
    )
}

/// The parallel projection of the box bounded by the planes `left`,
/// `right`, `bottom`, `top`, `near` and `far`.
pub open spec fn ortho_spec<T: Scalar>(left: T, right: T, bottom: T, top: T, near: T, far: T) -> Mat4<T> {
    let (z, one, two) = (T::zero_spec(), T::one_spec(), two_spec::<T>());
    let width = T::sub_spec(right, left);
    let height = T::sub_spec(top, bottom);
    let depth = T::sub_spec(far, near);
    Mat4::new_spec(
        T::div_spec(two, width),
        z,
        z,
        z,
        z,
        T::div_spec(two, height),
        z,
        z,
        z,
        z,
        T::div_spec(T::neg_spec(two), depth),
        z,
        T::div_spec(T::neg_spec(T::add_spec(right, left)), width),
        T::div_spec(T::neg_spec(T::add_spec(top, bottom)), height),
        T::div_spec(T::neg_spec(T::add_spec(far, near)), depth),
        one,
    )
}

/// Half the height of the near plane of a perspective projection whose
/// vertical field of view is `fovy` degrees: `near * tan(radians(fovy / 2))`.
pub open spec fn perspective_ymax_spec<T: Scalar>(fovy: T, near: T) -> T {
    T::mul_spec(near, T::tan_spec(T::to_radians_spec(T::div_spec(fovy, two_spec::<T>()))))
}

/// A perspective projection with a vertical field of view of `fovy`
/// degrees: the frustum `(-xmax, xmax, -ymax, ymax, near, far)`, where
/// `ymax = near * tan(radians(fovy / 2))` and `xmax = ymax * aspect`.
pub fn perspective<T: Scalar>(fovy: T, aspect: T, near: T, far: T) -> (r: Mat4<T>)
    ensures
        ({
            let ymax = perspective_ymax_spec(fovy, near);
            let xmax = T::mul_spec(ymax, aspect);
            r == frustum_spec(T::neg_spec(xmax), xmax, T::neg_spec(ymax), ymax, near, far)
        }),
{
    let ymax = near.mul(fovy.div(two::<T>()).to_radians().tan());
    let xmax = ymax.mul(aspect);
    frustum(xmax.neg(), xmax, ymax.neg(), ymax, near, far)
}

/// A perspective projection of the view volume bounded by the given planes.
pub fn frustum<T: Scalar>(left: T, right: T, bottom: T, top: T, near: T, far: T) -> (r: Mat4<T>)
    ensures
        r == frustum_spec(left, right, bottom, top, near, far),
{
    let (z, one, two) = (T::zero(), T::one(), two::<T>());
    let width = right.sub(left);
    let height = top.sub(bottom);
    let depth = far.sub(near);
    Mat4::new(
        two.mul(near).div(width),
        z,
        z,
        z,
        z,
        two.mul(near).div(height),
        z,
        z,
        right.add(left).div(width),
        top.add(bottom).div(height),
        far.add(near).neg().div(depth),
        one.neg(),
        z,
        z,
        two.mul(far).mul(near).neg().div(depth),
        z,
    )
}

/// A parallel projection of the box bounded by the given planes.
pub fn ortho<T: Scalar>(left: T, right: T, bottom: T, top: T, near: T, far: T) -> (r: Mat4<T>)
    ensures
        r == ortho_spec(left, right, bottom, top, near, far),
{
    let (z, one, two) = (T::zero(), T::one(), two::<T>());
    let width = right.sub(left);
    let height = top.sub(bottom);
    let depth = far.sub(near);
    Mat4::new(
        two.div(width),
        z,
        z,
        z,
        z,
        two.div(height),
        z,
        z,
        z,
        z,
        two.neg().div(depth),
        z,
        right.add(left).neg().div(width),
        top.add(bottom).neg().div(height),
        far.add(near).neg().div(depth),
        one,
    )
}

} // verus!
