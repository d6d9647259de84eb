use vstd::prelude::*;

use crate::angle::Angle;
use crate::mat4::Mat4;
use crate::matrix::{Matrix, Matrix3, MutableMatrix};
use crate::quat::Quat;
use crate::scalar::{half, half_spec, Scalar};
use crate::vec::{Vec2, Vec3};
use crate::mat2::Mat2;

verus! {

/// A 3 x 3 matrix, stored by columns `x`, `y` and `z`, so that element
/// (column `c`, row `r`) is component `r` of column `c`.
#[derive(Clone, Copy, Debug, PartialEq)]
pub struct Mat3<T> {
    pub x: Vec3<T>,
    pub y: Vec3<T>,
    pub z: Vec3<T>,
}

/// The quaternion `(s/2, a*k, b*k, c*k)` with `k = (1/2) / s`.
pub open spec fn quat_from_scale_spec<T: Scalar>(s: T, a: T, b: T, c: T) -> Quat<T> {
    let k = T::div_spec(half_spec::<T>(), s);
    Quat {
        w: T::mul_spec(half_spec::<T>(), s),
        x: T::mul_spec(a, k),
        y: T::mul_spec(b, k),
        z: T::mul_spec(c, k),
    }
}

fn quat_from_scale<T: Scalar>(s: T, a: T, b: T, c: T) -> (r: Quat<T>)
    ensures
        r == quat_from_scale_spec(s, a, b, c),
{
    let h = half::<T>();
    let k = h.div(s);
    Quat::new(h.mul(s), a.mul(k), b.mul(k), c.mul(k))
}

impl<T: Scalar> Mat3<T> {
    /// The matrix with the given elements, column by column.
    pub open spec fn new_spec(
        c0r0: T,
        c0r1: T,
        c0r2: T,
        c1r0: T,
        c1r1: T,
        c1r2: T,
        c2r0: T,
        c2r1: T,
        c2r2: T,
    ) -> Self {
        Mat3 {
            x: Vec3 { x: c0r0, y: c0r1, z: c0r2 },
            y: Vec3 { x: c1r0, y: c1r1, z: c1r2 },
            z: Vec3 { x: c2r0, y: c2r1, z: c2r2 },
        }
    }

    /// The matrix with `value` on the main diagonal and zero elsewhere.
    pub open spec fn from_value_spec(value: T) -> Self {
        let z = T::zero_spec();
        Self::new_spec(value, z, z, z, value, z, z, z, value)
    }

    /// `m` in the upper left corner of the identity.
    pub open spec fn from_mat2_spec(m: Mat2<T>) -> Self {
        let z = T::zero_spec();
        Self::new_spec(m.x.x, m.x.y, z, m.y.x, m.y.y, z, z, z, T::one_spec())
    }

    /// The rotation by `theta` radians about the unit vector `axis`.
    pub open spec fn from_axis_angle_spec(axis: Vec3<T>, theta: T) -> Self {
        let c = T::cos_spec(theta);
        let s = T::sin_spec(theta);
        let k = T::sub_spec(T::one_spec(), c);
        let (x, y, z) = (axis.x, axis.y, axis.z);
        let kxy = T::mul_spec(T::mul_spec(k, x), y);
        let kxz = T::mul_spec(T::mul_spec(k, x), z);
        let kyz = T::mul_spec(T::mul_spec(k, y), z);
        Self::new_spec(
            T::add_spec(T::mul_spec(T::mul_spec(k, x), x), c),
            T::add_spec(kxy, T::mul_spec(s, z)),
            T::sub_spec(kxz, T::mul_spec(s, y)),
            T::sub_spec(kxy, T::mul_spec(s, z)),
            T::add_spec(T::mul_spec(T::mul_spec(k, y), y), c),
            T::add_spec(kyz, T::mul_spec(s, x)),
            T::add_spec(kxz, T::mul_spec(s, y)),
            T::sub_spec(kyz, T::mul_spec(s, x)),
            T::add_spec(T::mul_spec(T::mul_spec(k, z), z), c),
        )
    }

    /// The quaternion of a rotation matrix. Which formula applies depends on
    /// the trace and, where the trace is negative, on the largest element
    /// of the main diagonal, so that the scale `s` is never near zero.
    pub open spec fn to_quat_spec(self) -> Quat<T> {
        let h = half_spec::<T>();
        let (m00, m01, m02) = (self.x.x, self.x.y, self.x.z);
        let (m10, m11, m12) = (self.y.x, self.y.y, self.y.z);
        let (m20, m21, m22) = (self.z.x, self.z.y, self.z.z);
        let tr = self.trace_spec();
        if T::ge_spec(tr, T::zero_spec()) {
            quat_from_scale_spec(
                T::sqrt_spec(T::add_spec(T::one_spec(), tr)),
                T::sub_spec(m12, m21),
                T::sub_spec(m20, m02),
                T::sub_spec(m01, m10),
            )
        } else if T::gt_spec(m00, m11) && T::gt_spec(m00, m22) {
            quat_from_scale_spec(
                T::sqrt_spec(T::add_spec(h, T::sub_spec(T::sub_spec(m00, m11), m22))),
                T::sub_spec(m01, m10),
                T::sub_spec(m20, m02),
                T::sub_spec(m12, m21),
            )
        } else if T::gt_spec(m11, m22) {
            quat_from_scale_spec(
                T::sqrt_spec(T::add_spec(h, T::sub_spec(T::sub_spec(m11, m00), m22))),
                T::sub_spec(m01, m10),
                T::sub_spec(m12, m21),
                T::sub_spec(m20, m02),
            )
        } else {
            quat_from_scale_spec(
                T::sqrt_spec(T::add_spec(h, T::sub_spec(T::sub_spec(m22, m00), m11))),
                T::sub_spec(m20, m02),
                T::sub_spec(m12, m21),
                T::sub_spec(m01, m10),
            )
        }
    }

    /// Builds a matrix from its elements, column by column.
    pub fn new(
        c0r0: T,
        c0r1: T,
        c0r2: T,
        c1r0: T,
        c1r1: T,
        c1r2: T,
        c2r0: T,
        c2r1: T,
        c2r2: T,
    ) -> (r: Self)
        ensures
            r == Self::new_spec(c0r0, c0r1, c0r2, c1r0, c1r1, c1r2, c2r0, c2r1, c2r2),
    {
        Mat3::from_cols(
            Vec3::new(c0r0, c0r1, c0r2),
            Vec3::new(c1r0, c1r1, c1r2),
            Vec3::new(c2r0, c2r1, c2r2),
        )
    }

    /// Builds a matrix from its three columns.
    pub fn from_cols(c0: Vec3<T>, c1: Vec3<T>, c2: Vec3<T>) -> (r: Self)
        ensures
            r == (Mat3 { x: c0, y: c1, z: c2 }),
    {
        Mat3 { x: c0, y: c1, z: c2 }
    }

    /// A diagonal matrix with `value` on the main diagonal.
    pub fn from_value(value: T) -> (r: Self)
        ensures
            r == Self::from_value_spec(value),
    {
        let z = T::zero();
        Mat3::new(value, z, z, z, value, z, z, z, value)
    }

    /// Extends a 2 x 2 matrix with the identity.
    pub fn from_mat2(m: &Mat2<T>) -> (r: Self)
        ensures
            r == Self::from_mat2_spec(*m),
    {
        let z = T::zero();
        Mat3::new(m.x.x, m.x.y, z, m.y.x, m.y.y, z, z, z, T::one())
    }

    /// The rotation as a quaternion, assuming the matrix is a rotation.
    pub fn to_quat(&self) -> (r: Quat<T>)
        ensures
            r == self.to_quat_spec(),
    {
        let h = half::<T>();
        let (m00, m01, m02) = (self.x.x, self.x.y, self.x.z);
        let (m10, m11, m12) = (self.y.x, self.y.y, self.y.z);
        let (m20, m21, m22) = (self.z.x, self.z.y, self.z.z);
        let tr = self.trace();
        if tr.ge(T::zero()) {
            quat_from_scale(T::one().add(tr).sqrt(), m12.sub(m21), m20.sub(m02), m01.sub(m10))
        } else if m00.gt(m11) && m00.gt(m22) {
            quat_from_scale(
                h.add(m00.sub(m11).sub(m22)).sqrt(),
                m01.sub(m10),
                m20.sub(m02),
                m12.sub(m21),
            )
        } else if m11.gt(m22) {
            quat_from_scale(
                h.add(m11.sub(m00).sub(m22)).sqrt(),
                m01.sub(m10),
                m12.sub(m21),
                m20.sub(m02),
            )
        } else {
            quat_from_scale(
                h.add(m22.sub(m00).sub(m11)).sqrt(),
                m20.sub(m02),
                m12.sub(m21),
                m01.sub(m10),
            )
        }
    }
}

impl<T: Scalar> Matrix<T, Vec3<T>> for Mat3<T> {
    open spec fn dim_spec() -> nat {
        3
    }

    open spec fn col_spec(&self, i: int) -> Vec3<T> {
        if i == 0 {
            self.x
        } else if i == 1 {
            self.y
        } else {
            self.z
        }
    }

    open spec fn row_spec(&self, i: int) -> Vec3<T> {
        Vec3 { x: self.x.comp(i), y: self.y.comp(i), z: self.z.comp(i) }
    }

    open spec fn identity_spec() -> Self {
        Self::from_value_spec(T::one_spec())
    }

    open spec fn zero_spec() -> Self {
        Self::from_value_spec(T::zero_spec())
    }

    open spec fn mul_t_spec(&self, value: T) -> Self {
        Mat3 {
            x: self.x.mul_t_spec(value),
            y: self.y.mul_t_spec(value),
            z: self.z.mul_t_spec(value),
        }
    }

    open spec fn mul_v_spec(&self, v: Vec3<T>) -> Vec3<T> {
        Vec3 {
            x: self.row_spec(0).dot_spec(v),
            y: self.row_spec(1).dot_spec(v),
            z: self.row_spec(2).dot_spec(v),
        }
    }

    open spec fn add_m_spec(&self, o: Self) -> Self {
        Mat3 { x: self.x.add_v_spec(o.x), y: self.y.add_v_spec(o.y), z: self.z.add_v_spec(o.z) }
    }

    open spec fn sub_m_spec(&self, o: Self) -> Self {
        Mat3 { x: self.x.sub_v_spec(o.x), y: self.y.sub_v_spec(o.y), z: self.z.sub_v_spec(o.z) }
    }

    open spec fn mul_m_spec(&self, o: Self) -> Self {
        Mat3 { x: self.mul_v_spec(o.x), y: self.mul_v_spec(o.y), z: self.mul_v_spec(o.z) }
    }

    /// The scalar triple product `col(0) · (col(1) × col(2))`.
    open spec fn determinant_spec(&self) -> T {
        self.x.dot_spec(self.y.cross_spec(self.z))
    }

    open spec fn trace_spec(&self) -> T {
        T::add_spec(T::add_spec(self.x.x, self.y.y), self.z.z)
    }

    /// The adjugate, built from cross products of the columns, divided by
    /// the determinant.
    open spec fn inverse_spec(&self) -> Option<Self> {
        let d = self.determinant_spec();
        if T::fuzzy_eq_spec(d, T::zero_spec()) {
            None
        } else {
            Some(
                (Mat3 {
                    x: self.y.cross_spec(self.z).div_t_spec(d),
                    y: self.z.cross_spec(self.x).div_t_spec(d),
                    z: self.x.cross_spec(self.y).div_t_spec(d),
                }).transpose_spec(),
            )
        }
    }

    open spec fn transpose_spec(&self) -> Self {
        Self::new_spec(
            self.x.x,
            self.y.x,
            self.z.x,
            self.x.y,
            self.y.y,
            self.z.y,
            self.x.z,
            self.y.z,
            self.z.z,
        )
    }

    open spec fn neg_spec(&self) -> Self {
        Mat3 { x: self.x.neg_spec(), y: self.y.neg_spec(), z: self.z.neg_spec() }
    }

    open spec fn fuzzy_eq_spec(&self, o: Self) -> bool {
        self.x.fuzzy_eq_spec(o.x) && self.y.fuzzy_eq_spec(o.y) && self.z.fuzzy_eq_spec(o.z)
    }

    open spec fn is_diagonal_spec(&self) -> bool {
        let z = T::zero_spec();
        &&& T::fuzzy_eq_spec(self.x.y, z)
        &&& T::fuzzy_eq_spec(self.x.z, z)
        &&& T::fuzzy_eq_spec(self.y.x, z)
        &&& T::fuzzy_eq_spec(self.y.z, z)
        &&& T::fuzzy_eq_spec(self.z.x, z)
        &&& T::fuzzy_eq_spec(self.z.y, z)
    }

    open spec fn is_symmetric_spec(&self) -> bool {
        &&& T::fuzzy_eq_spec(self.x.y, self.y.x)
        &&& T::fuzzy_eq_spec(self.x.z, self.z.x)
        &&& T::fuzzy_eq_spec(self.y.x, self.x.y)
        &&& T::fuzzy_eq_spec(self.y.z, self.z.y)
        &&& T::fuzzy_eq_spec(self.z.x, self.x.z)
        &&& T::fuzzy_eq_spec(self.z.y, self.y.z)
    }

    open spec fn diagonal_is_reflexive(&self) -> bool {
        &&& T::fuzzy_eq_spec(self.x.x, self.x.x)
        &&& T::fuzzy_eq_spec(self.y.y, self.y.y)
        &&& T::fuzzy_eq_spec(self.z.z, self.z.z)
    }

    fn dim() -> (r: usize) {
        3
    }

    fn col(&self, i: usize) -> (r: Vec3<T>) {
        if i == 0 {
            self.x
        } else if i == 1 {
            self.y
        } else {
            self.z
        }
    }

    fn row(&self, i: usize) -> (r: Vec3<T>) {
        Vec3::new(self.x.index(i), self.y.index(i), self.z.index(i))
    }

    fn identity() -> (r: Self) {
        Mat3::from_value(T::one())
    }

    fn zero() -> (r: Self) {
        Mat3::from_value(T::zero())
    }

    fn mul_t(&self, value: T) -> (r: Self) {
        Mat3::from_cols(self.x.mul_t(value), self.y.mul_t(value), self.z.mul_t(value))
    }

    fn mul_v(&self, v: &Vec3<T>) -> (r: Vec3<T>) {
        Vec3::new(self.row(0).dot(v), self.row(1).dot(v), self.row(2).dot(v))
    }

    fn add_m(&self, o: &Self) -> (r: Self) {
        Mat3::from_cols(self.x.add_v(&o.x), self.y.add_v(&o.y), self.z.add_v(&o.z))
    }

    fn sub_m(&self, o: &Self) -> (r: Self) {
        Mat3::from_cols(self.x.sub_v(&o.x), self.y.sub_v(&o.y), self.z.sub_v(&o.z))
    }

    fn mul_m(&self, o: &Self) -> (r: Self) {
        Mat3::from_cols(self.mul_v(&o.col(0)), self.mul_v(&o.col(1)), self.mul_v(&o.col(2)))
    }

    fn dot(&self, o: &Self) -> (r: T) {
        o.transpose().mul_m(self).trace()
    }

    fn determinant(&self) -> (r: T) {
        self.col(0).dot(&self.col(1).cross(&self.col(2)))
    }

    fn trace(&self) -> (r: T) {
        self.x.x.add(self.y.y).add(self.z.z)
    }

    fn inverse(&self) -> (r: Option<Self>) {
        let d = self.determinant();
        if d.fuzzy_eq(T::zero()) {
            None
        } else {
            let adj = Mat3::from_cols(
                self.y.cross(&self.z).div_t(d),
                self.z.cross(&self.x).div_t(d),
                self.x.cross(&self.y).div_t(d),
            );
            Some(adj.transpose())
        }
    }

    fn transpose(&self) -> (r: Self) {
        Mat3::new(
            self.x.x,
            self.y.x,
            self.z.x,
            self.x.y,
            self.y.y,
            self.z.y,
            self.x.z,
            self.y.z,
            self.z.z,
        )
    }

    fn neg(&self) -> (r: Self) {
        Mat3::from_cols(self.x.neg(), self.y.neg(), self.z.neg())
    }

    fn fuzzy_eq(&self, o: &Self) -> (r: bool) {
        self.x.fuzzy_eq(&o.x) && self.y.fuzzy_eq(&o.y) && self.z.fuzzy_eq(&o.z)
    }

    fn is_identity(&self) -> (r: bool) {
        self.fuzzy_eq(&Self::identity())
    }

    fn is_diagonal(&self) -> (r: bool) {
        let z = T::zero();
        self.x.y.fuzzy_eq(z) && self.x.z.fuzzy_eq(z) && self.y.x.fuzzy_eq(z) && self.y.z.fuzzy_eq(z)
            && self.z.x.fuzzy_eq(z) && self.z.y.fuzzy_eq(z)
    }

    fn is_rotated(&self) -> (r: bool) {
        !self.fuzzy_eq(&Self::identity())
    }

    fn is_symmetric(&self) -> (r: bool) {
        self.x.y.fuzzy_eq(self.y.x) && self.x.z.fuzzy_eq(self.z.x) && self.y.x.fuzzy_eq(self.x.y)
            && self.y.z.fuzzy_eq(self.z.y) && self.z.x.fuzzy_eq(self.x.z) && self.z.y.fuzzy_eq(
            self.y.z,
        )
    }

    fn is_invertible(&self) -> (r: bool) {
        !self.determinant().fuzzy_eq(T::zero())
    }

    proof fn lemma_transpose_transpose(&self) {
    }

    proof fn lemma_symmetric_iff_fuzzy_eq_transpose(&self) {
    }
}

impl<T: Scalar> MutableMatrix<T, Vec3<T>> for Mat3<T> {
    open spec fn with_col_spec(&self, i: int, v: Vec3<T>) -> Self {
        if i == 0 {
            Mat3 { x: v, ..*self }
        } else if i == 1 {
            Mat3 { y: v, ..*self }
        } else {
            Mat3 { z: v, ..*self }
        }
    }

    open spec fn swap_rows_spec(&self, a: int, b: int) -> Self {
        Mat3 { x: self.x.swapped(a, b), y: self.y.swapped(a, b), z: self.z.swapped(a, b) }
    }

    fn col_mut(&mut self, i: usize) -> (r: &mut Vec3<T>) {
        if i == 0 {
            &mut self.x
        } else if i == 1 {
            &mut self.y
        } else {
            &mut self.z
        }
    }

    fn swap_cols(&mut self, a: usize, b: usize) {
        let ca = self.col(a);
        let cb = self.col(b);
        *self.col_mut(a) = cb;
        *self.col_mut(b) = ca;
    }

    fn swap_rows(&mut self, a: usize, b: usize) {
        self.x.swap(a, b);
        self.y.swap(a, b);
        self.z.swap(a, b);
    }

    fn set(&mut self, o: &Self) {
        *self = *o;
    }

    fn to_identity(&mut self) {
        *self = Self::identity();
    }

    fn to_zero(&mut self) {
        *self = Self::zero();
    }

    fn mul_self_t(&mut self, value: T) {
        self.x = self.x.mul_t(value);
        self.y = self.y.mul_t(value);
        self.z = self.z.mul_t(value);
    }

    fn add_self_m(&mut self, o: &Self) {
        self.x = self.x.add_v(&o.x);
        self.y = self.y.add_v(&o.y);
        self.z = self.z.add_v(&o.z);
    }

    fn sub_self_m(&mut self, o: &Self) {
        self.x = self.x.sub_v(&o.x);
        self.y = self.y.sub_v(&o.y);
        self.z = self.z.sub_v(&o.z);
    }

    fn invert_self(&mut self) {
        match self.inverse() {
            Some(m) => *self = m,
            None => {},
        }
    }

    /// Exchanges each element off the main diagonal with its mirror image.
    fn transpose_self(&mut self) {
        let t = self.x.y;
        self.x.y = self.y.x;
        self.y.x = t;
        let t = self.x.z;
        self.x.z = self.z.x;
        self.z.x = t;
        let t = self.y.z;
        self.y.z = self.z.y;
        self.z.y = t;
    }
}

impl<T: Scalar> Matrix3<T, Vec3<T>> for Mat3<T> {
    open spec fn to_mat4_spec(&self) -> Mat4<T> {
        Mat4::from_mat3_spec(*self)
    }

    fn from_axis_angle(axis: &Vec3<T>, theta: Angle<T>) -> (r: Mat3<T>) {
        let t = theta.to_radians();
        let c = t.cos();
        let s = t.sin();
        let k = T::one().sub(c);
        let (x, y, z) = (axis.x, axis.y, axis.z);
        let kxy = k.mul(x).mul(y);
        let kxz = k.mul(x).mul(z);
        let kyz = k.mul(y).mul(z);
        Mat3::new(
            k.mul(x).mul(x).add(c),
            kxy.add(s.mul(z)),
            kxz.sub(s.mul(y)),
            kxy.sub(s.mul(z)),
            k.mul(y).mul(y).add(c),
            kyz.add(s.mul(x)),
            kxz.add(s.mul(y)),
            kyz.sub(s.mul(x)),
            k.mul(z).mul(z).add(c),
        )
    }

    fn to_mat4(&self) -> (r: Mat4<T>) {
        Mat4::from_mat3(self)
    }
}

} // verus!
