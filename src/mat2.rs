use vstd::prelude::*;

use crate::mat3::Mat3;
use crate::mat4::Mat4;
use crate::matrix::{Matrix, Matrix2, MutableMatrix};
use crate::scalar::Scalar;
use crate::vec::Vec2;

verus! {

/// A 2 x 2 matrix, stored by columns: `x` is column 0 and `y` column 1, so
/// that element (column `c`, row `r`) is component `r` of column `c`.
#[derive(Clone, Copy, Debug, PartialEq)]
pub struct Mat2<T> {
    pub x: Vec2<T>,
    pub y: Vec2<T>,
}

impl<T: Scalar> Mat2<T> {
    /// The matrix with columns `(c0r0, c0r1)` and `(c1r0, c1r1)`.
    pub open spec fn new_spec(c0r0: T, c0r1: T, c1r0: T, c1r1: T) -> Self {
        Mat2 { x: Vec2 { x: c0r0, y: c0r1 }, y: Vec2 { x: c1r0, y: c1r1 } }
    }

    /// The matrix with `value` on the main diagonal and zero elsewhere.
    pub open spec fn from_value_spec(value: T) -> Self {
        Self::new_spec(value, T::zero_spec(), T::zero_spec(), value)
    }

    /// Builds a matrix from its elements, column by column.
    pub fn new(c0r0: T, c0r1: T, c1r0: T, c1r1: T) -> (r: Self)
        ensures
            r == Self::new_spec(c0r0, c0r1, c1r0, c1r1),
    {
        Mat2::from_cols(Vec2::new(c0r0, c0r1), Vec2::new(c1r0, c1r1))
    }

    /// Builds a matrix from its two columns.
    pub fn from_cols(c0: Vec2<T>, c1: Vec2<T>) -> (r: Self)
        ensures
            r == (Mat2 { x: c0, y: c1 }),
    {
        Mat2 { x: c0, y: c1 }
    }

    /// A diagonal matrix with `value` on the main diagonal.
    pub fn from_value(value: T) -> (r: Self)
        ensures
            r == Self::from_value_spec(value),
    {
        let z = T::zero();
        Mat2::new(value, z, z, value)
    }
}

impl<T: Scalar> Matrix<T, Vec2<T>> for Mat2<T> {
    open spec fn dim_spec() -> nat {
        2
    }

    open spec fn col_spec(&self, i: int) -> Vec2<T> {
        if i == 0 {
            self.x
        } else {
            self.y
        }
    }

    open spec fn row_spec(&self, i: int) -> Vec2<T> {
        Vec2 { x: self.x.comp(i), y: self.y.comp(i) }
    }

    open spec fn identity_spec() -> Self {
        Self::new_spec(T::one_spec(), T::zero_spec(), T::zero_spec(), T::one_spec())
    }

    open spec fn zero_spec() -> Self {
        Self::from_value_spec(T::zero_spec())
    }

    open spec fn mul_t_spec(&self, value: T) -> Self {
        Mat2 { x: self.x.mul_t_spec(value), y: self.y.mul_t_spec(value) }
    }

    open spec fn mul_v_spec(&self, v: Vec2<T>) -> Vec2<T> {
        Vec2 { x: self.row_spec(0).dot_spec(v), y: self.row_spec(1).dot_spec(v) }
    }

    open spec fn add_m_spec(&self, o: Self) -> Self {
        Mat2 { x: self.x.add_v_spec(o.x), y: self.y.add_v_spec(o.y) }
    }

    open spec fn sub_m_spec(&self, o: Self) -> Self {
        Mat2 { x: self.x.sub_v_spec(o.x), y: self.y.sub_v_spec(o.y) }
    }

    open spec fn mul_m_spec(&self, o: Self) -> Self {
        Mat2 { x: self.mul_v_spec(o.x), y: self.mul_v_spec(o.y) }
    }

    /// `a*d - b*c`.
    open spec fn determinant_spec(&self) -> T {
        T::sub_spec(T::mul_spec(self.x.x, self.y.y), T::mul_spec(self.y.x, self.x.y))
    }

    open spec fn trace_spec(&self) -> T {
        T::add_spec(self.x.x, self.y.y)
    }

    /// The adjugate divided by the determinant.
    open spec fn inverse_spec(&self) -> Option<Self> {
        let d = self.determinant_spec();
        if T::fuzzy_eq_spec(d, T::zero_spec()) {
            None
        } else {
            Some(
                Self::new_spec(
                    T::div_spec(self.y.y, d),
                    T::div_spec(T::neg_spec(self.x.y), d),
                    T::div_spec(T::neg_spec(self.y.x), d),
                    T::div_spec(self.x.x, d),
                ),
            )
        }
    }

    open spec fn transpose_spec(&self) -> Self {
        Self::new_spec(self.x.x, self.y.x, self.x.y, self.y.y)
    }

    open spec fn neg_spec(&self) -> Self {
        Mat2 { x: self.x.neg_spec(), y: self.y.neg_spec() }
    }

    open spec fn fuzzy_eq_spec(&self, o: Self) -> bool {
        self.x.fuzzy_eq_spec(o.x) && self.y.fuzzy_eq_spec(o.y)
    }

    open spec fn is_diagonal_spec(&self) -> bool {
        T::fuzzy_eq_spec(self.x.y, T::zero_spec()) && T::fuzzy_eq_spec(self.y.x, T::zero_spec())
    }

    open spec fn is_symmetric_spec(&self) -> bool {
        T::fuzzy_eq_spec(self.x.y, self.y.x) && T::fuzzy_eq_spec(self.y.x, self.x.y)
    }

    open spec fn diagonal_is_reflexive(&self) -> bool {
        T::fuzzy_eq_spec(self.x.x, self.x.x) && T::fuzzy_eq_spec(self.y.y, self.y.y)
    }

    fn dim() -> (r: usize) {
        2
    }

    fn col(&self, i: usize) -> (r: Vec2<T>) {
        if i == 0 {
            self.x
        } else {
            self.y
        }
    }

    fn row(&self, i: usize) -> (r: Vec2<T>) {
        Vec2::new(self.x.index(i), self.y.index(i))
    }

    fn identity() -> (r: Self) {
        let o = T::one();
        let z = T::zero();
        Mat2::new(o, z, z, o)
    }

    fn zero() -> (r: Self) {
        Mat2::from_value(T::zero())
    }

    fn mul_t(&self, value: T) -> (r: Self) {
        Mat2::from_cols(self.x.mul_t(value), self.y.mul_t(value))
    }

    fn mul_v(&self, v: &Vec2<T>) -> (r: Vec2<T>) {
        Vec2::new(self.row(0).dot(v), self.row(1).dot(v))
    }

    fn add_m(&self, o: &Self) -> (r: Self) {
        Mat2::from_cols(self.x.add_v(&o.x), self.y.add_v(&o.y))
    }

    fn sub_m(&self, o: &Self) -> (r: Self) {
        Mat2::from_cols(self.x.sub_v(&o.x), self.y.sub_v(&o.y))
    }

    fn mul_m(&self, o: &Self) -> (r: Self) {
        Mat2::from_cols(self.mul_v(&o.col(0)), self.mul_v(&o.col(1)))
    }

    fn dot(&self, o: &Self) -> (r: T) {
        o.transpose().mul_m(self).trace()
    }

    fn determinant(&self) -> (r: T) {
        self.x.x.mul(self.y.y).sub(self.y.x.mul(self.x.y))
    }

    fn trace(&self) -> (r: T) {
        self.x.x.add(self.y.y)
    }

    fn inverse(&self) -> (r: Option<Self>) {
        let d = self.determinant();
        if d.fuzzy_eq(T::zero()) {
            None
        } else {
            Some(
                Mat2::new(
                    self.y.y.div(d),
                    self.x.y.neg().div(d),
                    self.y.x.neg().div(d),
                    self.x.x.div(d),
                ),
            )
        }
    }

    fn transpose(&self) -> (r: Self) {
        Mat2::new(self.x.x, self.y.x, self.x.y, self.y.y)
    }

    fn neg(&self) -> (r: Self) {
        Mat2::from_cols(self.x.neg(), self.y.neg())
    }

    fn fuzzy_eq(&self, o: &Self) -> (r: bool) {
        self.x.fuzzy_eq(&o.x) && self.y.fuzzy_eq(&o.y)
    }

    fn is_identity(&self) -> (r: bool) {
        self.fuzzy_eq(&Self::identity())
    }

    fn is_diagonal(&self) -> (r: bool) {
        let z = T::zero();
        self.x.y.fuzzy_eq(z) && self.y.x.fuzzy_eq(z)
    }

    fn is_rotated(&self) -> (r: bool) {
        !self.fuzzy_eq(&Self::identity())
    }

    fn is_symmetric(&self) -> (r: bool) {
        self.x.y.fuzzy_eq(self.y.x) && self.y.x.fuzzy_eq(self.x.y)
    }

    fn is_invertible(&self) -> (r: bool) {
        !self.determinant().fuzzy_eq(T::zero())
    }

    proof fn lemma_transpose_transpose(&self) {
    }

    proof fn lemma_symmetric_iff_fuzzy_eq_transpose(&self) {
    }
}

impl<T: Scalar> MutableMatrix<T, Vec2<T>> for Mat2<T> {
    open spec fn with_col_spec(&self, i: int, v: Vec2<T>) -> Self {
        if i == 0 {
            Mat2 { x: v, ..*self }
        } else {
            Mat2 { y: v, ..*self }
        }
    }

    open spec fn swap_rows_spec(&self, a: int, b: int) -> Self {
        Mat2 { x: self.x.swapped(a, b), y: self.y.swapped(a, b) }
    }

    fn col_mut(&mut self, i: usize) -> (r: &mut Vec2<T>) {
        if i == 0 {
            &mut self.x
        } else {
            &mut self.y
        }
    }

    fn swap_cols(&mut self, a: usize, b: usize) {
        let ca = self.col(a);
        let cb = self.col(b);
        *self.col_mut(a) = cb;
        *self.col_mut(b) = ca;
    }

    fn swap_rows(&mut self, a: usize, b: usize) {
        self.x.swap(a, b);
        self.y.swap(a, b);
    }

    fn set(&mut self, o: &Self) {
        *self = *o;
    }

    fn to_identity(&mut self) {
        *self = Self::identity();
    }

    fn to_zero(&mut self) {
        *self = Self::zero();
    }

    fn mul_self_t(&mut self, value: T) {
        self.x = self.x.mul_t(value);
        self.y = self.y.mul_t(value);
    }

    fn add_self_m(&mut self, o: &Self) {
        self.x = self.x.add_v(&o.x);
        self.y = self.y.add_v(&o.y);
    }

    fn sub_self_m(&mut self, o: &Self) {
        self.x = self.x.sub_v(&o.x);
        self.y = self.y.sub_v(&o.y);
    }

    fn invert_self(&mut self) {
        match self.inverse() {
            Some(m) => *self = m,
            None => {},
        }
    }

    fn transpose_self(&mut self) {
        let t = self.x.y;
        self.x.y = self.y.x;
        self.y.x = t;
    }
}

impl<T: Scalar> Matrix2<T, Vec2<T>> for Mat2<T> {
    open spec fn to_mat3_spec(&self) -> Mat3<T> {
        Mat3::from_mat2_spec(*self)
    }

    open spec fn to_mat4_spec(&self) -> Mat4<T> {
        Mat4::from_mat2_spec(*self)
    }

    fn to_mat3(&self) -> (r: Mat3<T>) {
        Mat3::from_mat2(self)
    }

    fn to_mat4(&self) -> (r: Mat4<T>) {
        Mat4::from_mat2(self)
    }
}

} // verus!
