use vstd::prelude::*;

use crate::angle::Angle;
use crate::mat3::Mat3;
use crate::mat4::Mat4;
use crate::scalar::Scalar;
use crate::vec::Vec3;

verus! {

/// A square matrix of order `dim()`, stored as columns of type `V` over the
/// scalar `T`.
///
/// Each operation is described by a spec function that every matrix type
/// defines over its own columns; the exec methods return exactly what these
/// give.
pub trait Matrix<T: Scalar, V>: Sized {
    /// The number of rows and of columns.
    spec fn dim_spec() -> nat;

    /// Column `i`.
    spec fn col_spec(&self, i: int) -> V;

    /// Row `i`: component `i` of every column.
    spec fn row_spec(&self, i: int) -> V;

    spec fn identity_spec() -> Self;

    spec fn zero_spec() -> Self;

    /// Every element multiplied by `value`.
    spec fn mul_t_spec(&self, value: T) -> Self;

    /// Component `i` is `row(i) · v`.
    spec fn mul_v_spec(&self, v: V) -> V;

    spec fn add_m_spec(&self, o: Self) -> Self;

    spec fn sub_m_spec(&self, o: Self) -> Self;

    /// Element (column `j`, row `i`) is `row(i) · o.col(j)`.
    spec fn mul_m_spec(&self, o: Self) -> Self;

    spec fn determinant_spec(&self) -> T;

    /// The sum of the main diagonal.
    spec fn trace_spec(&self) -> T;

    /// `None` exactly where the determinant is fuzzy-equal to zero.
    spec fn inverse_spec(&self) -> Option<Self>;

    spec fn transpose_spec(&self) -> Self;

    spec fn neg_spec(&self) -> Self;

    /// Every element fuzzy-equal to the element of `o` at the same place.
    spec fn fuzzy_eq_spec(&self, o: Self) -> bool;

    /// Every element off the main diagonal fuzzy-equal to zero.
    spec fn is_diagonal_spec(&self) -> bool;

    /// Every element off the main diagonal fuzzy-equal to its mirror image
    /// across that diagonal.
    spec fn is_symmetric_spec(&self) -> bool;

    /// Every element of the main diagonal fuzzy-equal to itself (which, with
    /// a tolerance test on floating-point numbers, a NaN or an infinity is
    /// not).
    spec fn diagonal_is_reflexive(&self) -> bool;

    fn dim() -> (r: usize)
        ensures
            r == Self::dim_spec(),
    ;

    fn col(&self, i: usize) -> (r: V)
        requires
            i < Self::dim_spec(),
        ensures
            r == self.col_spec(i as int),
    ;

    fn row(&self, i: usize) -> (r: V)
        requires
            i < Self::dim_spec(),
        ensures
            r == self.row_spec(i as int),
    ;

    fn identity() -> (r: Self)
        ensures
            r == Self::identity_spec(),
    ;

    fn zero() -> (r: Self)
        ensures
            r == Self::zero_spec(),
    ;

    fn mul_t(&self, value: T) -> (r: Self)
        ensures
            r == self.mul_t_spec(value),
    ;

    fn mul_v(&self, v: &V) -> (r: V)
        ensures
            r == self.mul_v_spec(*v),
    ;

    fn add_m(&self, o: &Self) -> (r: Self)
        ensures
            r == self.add_m_spec(*o),
    ;

    fn sub_m(&self, o: &Self) -> (r: Self)
        ensures
            r == self.sub_m_spec(*o),
    ;

    fn mul_m(&self, o: &Self) -> (r: Self)
        ensures
            r == self.mul_m_spec(*o),
    ;

    /// The trace of `transpose(o) · self`.
    fn dot(&self, o: &Self) -> (r: T)
        ensures
            r == o.transpose_spec().mul_m_spec(*self).trace_spec(),
    ;

    fn determinant(&self) -> (r: T)
        ensures
            r == self.determinant_spec(),
    ;

    fn trace(&self) -> (r: T)
        ensures
            r == self.trace_spec(),
    ;

    fn inverse(&self) -> (r: Option<Self>)
        ensures
            r == self.inverse_spec(),
            r.is_none() <==> T::fuzzy_eq_spec(self.determinant_spec(), T::zero_spec()),
    ;

    fn transpose(&self) -> (r: Self)
        ensures
            r == self.transpose_spec(),
    ;

    fn neg(&self) -> (r: Self)
        ensures
            r == self.neg_spec(),
    ;

    fn fuzzy_eq(&self, o: &Self) -> (r: bool)
        ensures
            r == self.fuzzy_eq_spec(*o),
    ;

    fn is_identity(&self) -> (r: bool)
        ensures
            r == self.fuzzy_eq_spec(Self::identity_spec()),
    ;

    fn is_diagonal(&self) -> (r: bool)
        ensures
            r == self.is_diagonal_spec(),
    ;

    fn is_rotated(&self) -> (r: bool)
        ensures
            r == !self.fuzzy_eq_spec(Self::identity_spec()),
    ;

    fn is_symmetric(&self) -> (r: bool)
        ensures
            r == self.is_symmetric_spec(),
    ;

    fn is_invertible(&self) -> (r: bool)
        ensures
            r == !T::fuzzy_eq_spec(self.determinant_spec(), T::zero_spec()),
            r <==> self.inverse_spec().is_some(),
    ;

    /// Transposing twice gives the matrix back.
    proof fn lemma_transpose_transpose(&self)
        ensures
            self.transpose_spec().transpose_spec() == *self,
    ;

    /// A matrix is symmetric exactly when it is fuzzy-equal to its
    /// transpose, wherever each element of its main diagonal is fuzzy-equal
    /// to itself; without that, it is fuzzy-equal to its transpose exactly
    /// when it is symmetric and its diagonal is.
    proof fn lemma_symmetric_iff_fuzzy_eq_transpose(&self)
        ensures
            self.fuzzy_eq_spec(self.transpose_spec()) <==> (self.is_symmetric_spec()
                && self.diagonal_is_reflexive()),
            self.diagonal_is_reflexive() ==> (self.is_symmetric_spec() <==> self.fuzzy_eq_spec(
                self.transpose_spec(),
            )),
    ;
}

/// A matrix that can be changed in place.
pub trait MutableMatrix<T: Scalar, V>: Matrix<T, V> {
    /// This matrix with column `i` replaced by `v`.
    spec fn with_col_spec(&self, i: int, v: V) -> Self;

    /// This matrix with rows `a` and `b` exchanged.
    spec fn swap_rows_spec(&self, a: int, b: int) -> Self;

    /// Exclusive access to column `i`.
    fn col_mut(&mut self, i: usize) -> (r: &mut V)
        requires
            i < Self::dim_spec(),
        ensures
            *r == old(self).col_spec(i as int),
            *final(self) == old(self).with_col_spec(i as int, *final(r)),
    ;

    fn swap_cols(&mut self, a: usize, b: usize)
        requires
            a < Self::dim_spec(),
            b < Self::dim_spec(),
        ensures
            *final(self) == old(self).with_col_spec(a as int, old(self).col_spec(b as int)).with_col_spec(
                b as int,
                old(self).col_spec(a as int),
            ),
    ;

    fn swap_rows(&mut self, a: usize, b: usize)
        requires
            a < Self::dim_spec(),
            b < Self::dim_spec(),
        ensures
            *final(self) == old(self).swap_rows_spec(a as int, b as int),
    ;

    fn set(&mut self, o: &Self)
        ensures
            *final(self) == *o,
    ;

    fn to_identity(&mut self)
        ensures
            *final(self) == Self::identity_spec(),
    ;

    fn to_zero(&mut self)
        ensures
            *final(self) == Self::zero_spec(),
    ;

    fn mul_self_t(&mut self, value: T)
        ensures
            *final(self) == old(self).mul_t_spec(value),
    ;

    fn add_self_m(&mut self, o: &Self)
        ensures
            *final(self) == old(self).add_m_spec(*o),
    ;

    fn sub_self_m(&mut self, o: &Self)
        ensures
            *final(self) == old(self).sub_m_spec(*o),
    ;

    /// Replaces the matrix with its inverse, which must exist.
    fn invert_self(&mut self)
        requires
            old(self).inverse_spec().is_some(),
        ensures
            *final(self) == old(self).inverse_spec().unwrap(),
    ;

    fn transpose_self(&mut self)
        ensures
            *final(self) == old(self).transpose_spec(),
    ;
}

/// A 2 x 2 matrix.
pub trait Matrix2<T: Scalar, V>: Matrix<T, V> {
    /// This matrix in the upper left corner of the 3 x 3 identity.
    spec fn to_mat3_spec(&self) -> Mat3<T>;

    /// This matrix in the upper left corner of the 4 x 4 identity.
    spec fn to_mat4_spec(&self) -> Mat4<T>;

    fn to_mat3(&self) -> (r: Mat3<T>)
        ensures
            r == self.to_mat3_spec(),
    ;

    fn to_mat4(&self) -> (r: Mat4<T>)
        ensures
            r == self.to_mat4_spec(),
    ;
}

/// A 3 x 3 matrix.
pub trait Matrix3<T: Scalar, V>: Matrix<T, V> {
    /// This matrix in the upper left corner of the 4 x 4 identity.
    spec fn to_mat4_spec(&self) -> Mat4<T>;

    /// The rotation by `theta` about the unit vector `axis`.
    fn from_axis_angle(axis: &Vec3<T>, theta: Angle<T>) -> (r: Mat3<T>)
        ensures
            r == Mat3::from_axis_angle_spec(*axis, theta.to_radians_spec()),
    ;

    fn to_mat4(&self) -> (r: Mat4<T>)
        ensures
            r == self.to_mat4_spec(),
    ;
}

/// A 4 x 4 matrix.
pub trait Matrix4<T: Scalar, V>: Matrix<T, V> {

}

} // verus!
