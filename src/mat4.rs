use vstd::prelude::*;

use crate::mat2::Mat2;
use crate::mat3::Mat3;
use crate::matrix::{Matrix, Matrix4, MutableMatrix};
use crate::scalar::Scalar;
use crate::vec::Vec4;

verus! {

/// A 4 x 4 matrix, stored by columns `x`, `y`, `z` and `w`, so that element
/// (column `c`, row `r`) is component `r` of column `c`.
#[derive(Clone, Copy, Debug, PartialEq)]
pub struct Mat4<T> {
    pub x: Vec4<T>,
    pub y: Vec4<T>,
    pub z: Vec4<T>,
    pub w: Vec4<T>,
}

/// The 3 x 3 minor made of rows 1 to 3 of the columns `a`, `b` and `c`,
/// laid out with those rows as its columns.
pub open spec fn minor_spec<T: Scalar>(a: Vec4<T>, b: Vec4<T>, c: Vec4<T>) -> Mat3<T> {
    Mat3::new_spec(a.y, b.y, c.y, a.z, b.z, c.z, a.w, b.w, c.w)
}

fn minor<T: Scalar>(a: &Vec4<T>, b: &Vec4<T>, c: &Vec4<T>) -> (r: Mat3<T>)
    ensures
        r == minor_spec(*a, *b, *c),
{
    Mat3::new(a.y, b.y, c.y, a.z, b.z, c.z, a.w, b.w, c.w)
}

impl<T: Scalar> Mat4<T> {
    /// The matrix with the given elements, column by column.
    pub open spec fn new_spec(
        c0r0: T,
        c0r1: T,
        c0r2: T,
        c0r3: T,
        c1r0: T,
        c1r1: T,
        c1r2: T,
        c1r3: T,
        c2r0: T,
        c2r1: T,
        c2r2: T,
        c2r3: T,
        c3r0: T,
        c3r1: T,
        c3r2: T,
        c3r3: T,
    ) -> Self {
        Mat4 {
            x: Vec4 { x: c0r0, y: c0r1, z: c0r2, w: c0r3 },
            y: Vec4 { x: c1r0, y: c1r1, z: c1r2, w: c1r3 },
            z: Vec4 { x: c2r0, y: c2r1, z: c2r2, w: c2r3 },
            w: Vec4 { x: c3r0, y: c3r1, z: c3r2, w: c3r3 },
        }
    }

    /// The matrix with `value` on the main diagonal and zero elsewhere.
    pub open spec fn from_value_spec(value: T) -> Self {
        let z = T::zero_spec();
        Self::new_spec(value, z, z, z, z, value, z, z, z, z, value, z, z, z, z, value)
    }

    /// `m` in the upper left corner of the identity.
    pub open spec fn from_mat2_spec(m: Mat2<T>) -> Self {
        let (z, o) = (T::zero_spec(), T::one_spec());
        Self::new_spec(m.x.x, m.x.y, z, z, m.y.x, m.y.y, z, z, z, z, o, z, z, z, z, o)
    }

    /// `m` in the upper left corner of the identity.
    pub open spec fn from_mat3_spec(m: Mat3<T>) -> Self {
        let (z, o) = (T::zero_spec(), T::one_spec());
        Self::new_spec(
            m.x.x,
            m.x.y,
            m.x.z,
            z,
            m.y.x,
            m.y.y,
            m.y.z,
            z,
            m.z.x,
            m.z.y,
            m.z.z,
            z,
            z,
            z,
            z,
            o,
        )
    }

    /// The row index, among `i..4`, of the element of column `j` with the
    /// largest absolute value, where `best` is the largest found so far; of
    /// equal ones the first is taken.
    pub open spec fn pivot_from(self, j: int, i: int, best: int) -> int
        decreases 4 - i,
    {
        if i >= 4 {
            best
        } else {
            let col = self.col_spec(j);
            let next = if T::gt_spec(T::abs_spec(col.comp(i)), T::abs_spec(col.comp(best))) {
                i
            } else {
                best
            };
            self.pivot_from(j, i + 1, next)
        }
    }

    /// The pivot row for column `j`: the row, from `j` on, whose element in
    /// column `j` has the largest absolute value.
    pub open spec fn pivot_spec(self, j: int) -> int {
        self.pivot_from(j, j + 1, j)
    }

    /// Subtracts from each column `i..4` of `a` other than `j` column `j`
    /// times the element of that column in row `j`, and does the same to
    /// `b` with the same factors.
    pub open spec fn eliminate_from(a: Self, b: Self, j: int, i: int) -> (Self, Self)
        decreases 4 - i,
    {
        if i >= 4 {
            (a, b)
        } else if i == j {
            Self::eliminate_from(a, b, j, i + 1)
        } else {
            let f = a.col_spec(i).comp(j);
            Self::eliminate_from(
                a.with_col(i, a.col_spec(i).sub_v_spec(a.col_spec(j).mul_t_spec(f))),
                b.with_col(i, b.col_spec(i).sub_v_spec(b.col_spec(j).mul_t_spec(f))),
                j,
                i + 1,
            )
        }
    }

    /// This matrix with column `i` replaced by `v`.
    pub open spec fn with_col(self, i: int, v: Vec4<T>) -> Self {
        if i == 0 {
            Mat4 { x: v, ..self }
        } else if i == 1 {
            Mat4 { y: v, ..self }
        } else if i == 2 {
            Mat4 { z: v, ..self }
        } else {
            Mat4 { w: v, ..self }
        }
    }

    /// This matrix with columns `p` and `q` exchanged.
    pub open spec fn swap_cols_spec(self, p: int, q: int) -> Self {
        self.with_col(p, self.col_spec(q)).with_col(q, self.col_spec(p))
    }

    /// One step of Gauss-Jordan elimination on `a`, augmented with `b`:
    /// the pivot column is swapped into place in both, column `j` of both
    /// is divided by the pivot, and the other columns are eliminated.
    pub open spec fn gauss_jordan_step(a: Self, b: Self, j: int) -> (Self, Self) {
        let p = a.pivot_spec(j);
        let a1 = a.swap_cols_spec(p, j);
        let b1 = b.swap_cols_spec(p, j);
        let d = a1.col_spec(j).comp(j);
        Self::eliminate_from(
            a1.with_col(j, a1.col_spec(j).div_t_spec(d)),
            b1.with_col(j, b1.col_spec(j).div_t_spec(d)),
            j,
            0,
        )
    }

    /// The steps `j..4` of Gauss-Jordan elimination.
    pub open spec fn gauss_jordan_from(a: Self, b: Self, j: int) -> (Self, Self)
        decreases 4 - j,
    {
        if j >= 4 {
            (a, b)
        } else {
            let (a1, b1) = Self::gauss_jordan_step(a, b, j);
            Self::gauss_jordan_from(a1, b1, j + 1)
        }
    }

    /// Builds a matrix from its elements, column by column.
    pub fn new(
        c0r0: T,
        c0r1: T,
        c0r2: T,
        c0r3: T,
        c1r0: T,
        c1r1: T,
        c1r2: T,
        c1r3: T,
        c2r0: T,
        c2r1: T,
        c2r2: T,
        c2r3: T,
        c3r0: T,
        c3r1: T,
        c3r2: T,
        c3r3: T,
    ) -> (r: Self)
        ensures
            r == Self::new_spec(c0r0, c0r1, c0r2, c0r3, c1r0, c1r1, c1r2, c1r3, c2r0, c2r1, c2r2, c2r3, c3r0, c3r1, c3r2, c3r3),
    {
        Mat4::from_cols(
            Vec4::new(c0r0, c0r1, c0r2, c0r3),
            Vec4::new(c1r0, c1r1, c1r2, c1r3),
            Vec4::new(c2r0, c2r1, c2r2, c2r3),
            Vec4::new(c3r0, c3r1, c3r2, c3r3),
        )
    }

    /// Builds a matrix from its four columns.
    pub fn from_cols(c0: Vec4<T>, c1: Vec4<T>, c2: Vec4<T>, c3: Vec4<T>) -> (r: Self)
        ensures
            r == (Mat4 { x: c0, y: c1, z: c2, w: c3 }),
    {
        Mat4 { x: c0, y: c1, z: c2, w: c3 }
    }

    /// A diagonal matrix with `value` on the main diagonal.
    pub fn from_value(value: T) -> (r: Self)
        ensures
            r == Self::from_value_spec(value),
    {
        let z = T::zero();
        Mat4::new(value, z, z, z, z, value, z, z, z, z, value, z, z, z, z, value)
    }

    /// Extends a 2 x 2 matrix with the identity.
    pub fn from_mat2(m: &Mat2<T>) -> (r: Self)
        ensures
            r == Self::from_mat2_spec(*m),
    {
        let (z, o) = (T::zero(), T::one());
        Mat4::new(m.x.x, m.x.y, z, z, m.y.x, m.y.y, z, z, z, z, o, z, z, z, z, o)
    }

    /// Extends a 3 x 3 matrix with the identity.
    pub fn from_mat3(m: &Mat3<T>) -> (r: Self)
        ensures
            r == Self::from_mat3_spec(*m),
    {
        let (z, o) = (T::zero(), T::one());
        Mat4::new(m.x.x, m.x.y, m.x.z, z, m.y.x, m.y.y, m.y.z, z, m.z.x, m.z.y, m.z.z, z, z, z, z, o)
    }

    /// Replaces column `i` with `v`.
    fn set_col(&mut self, i: usize, v: Vec4<T>)
        requires
            i < 4,
        ensures
            *final(self) == old(self).with_col(i as int, v),
    {
        if i == 0 {
            self.x = v;
        } else if i == 1 {
            self.y = v;
        } else if i == 2 {
            self.z = v;
        } else {
            self.w = v;
        }
    }

    /// Exchanges columns `p` and `q`.
    fn exchange_cols(&mut self, p: usize, q: usize)
        requires
            p < 4,
            q < 4,
        ensures
            *final(self) == old(self).swap_cols_spec(p as int, q as int),
    {
        let cp = self.col(p);
        let cq = self.col(q);
        self.set_col(p, cq);
        self.set_col(q, cp);
    }

    /// The pivot row for column `j` of `a`.
    fn pivot(a: &Self, j: usize) -> (r: usize)
        requires
            j < 4,
        ensures
            r == a.pivot_spec(j as int),
            j <= r < 4,
    {
        let col = a.col(j);
        let mut best: usize = j;
        let mut i: usize = j + 1;
        while i < 4
            invariant
                j < i <= 4,
                j <= best < 4,
                col == a.col_spec(j as int),
                a.pivot_from(j as int, i as int, best as int) == a.pivot_spec(j as int),
            decreases 4 - i,
        {
            if col.index(i).abs().gt(col.index(best).abs()) {
                best = i;
            }
            i = i + 1;
        }
        best
    }

    /// Eliminates column `j` from every other column of `a`, doing the same
    /// to `b`.
    fn eliminate(a: &mut Self, b: &mut Self, j: usize)
        requires
            j < 4,
        ensures
            (*final(a), *final(b)) == Self::eliminate_from(*old(a), *old(b), j as int, 0),
    {
        let mut i: usize = 0;
        while i < 4
            invariant
                j < 4,
                i <= 4,
                Self::eliminate_from(*a, *b, j as int, i as int) == Self::eliminate_from(
                    *old(a),
                    *old(b),
                    j as int,
                    0,
                ),
            decreases 4 - i,
        {
            if i != j {
                let f = a.col(i).index(j);
                let bi = b.col(i).sub_v(&b.col(j).mul_t(f));
                b.set_col(i, bi);
                let ai = a.col(i).sub_v(&a.col(j).mul_t(f));
                a.set_col(i, ai);
            }
            i = i + 1;
        }
    }

    /// The steps of Gauss-Jordan elimination with partial pivoting, from
    /// `a` augmented with `b`.
    fn gauss_jordan(a: &mut Self, b: &mut Self)
        ensures
            (*final(a), *final(b)) == Self::gauss_jordan_from(*old(a), *old(b), 0),
    {
        let mut j: usize = 0;
        while j < 4
            invariant
                j <= 4,
                Self::gauss_jordan_from(*a, *b, j as int) == Self::gauss_jordan_from(
                    *old(a),
                    *old(b),
                    0,
                ),
            decreases 4 - j,
        {
            let p = Self::pivot(a, j);
            a.exchange_cols(p, j);
            b.exchange_cols(p, j);
            let d = a.col(j).index(j);
            let bj = b.col(j).div_t(d);
            b.set_col(j, bj);
            let aj = a.col(j).div_t(d);
            a.set_col(j, aj);
            Self::eliminate(a, b, j);
            j = j + 1;
        }
    }
}

impl<T: Scalar> Matrix<T, Vec4<T>> for Mat4<T> {
    open spec fn dim_spec() -> nat {
        4
    }

    open spec fn col_spec(&self, i: int) -> Vec4<T> {
        if i == 0 {
            self.x
        } else if i == 1 {
            self.y
        } else if i == 2 {
            self.z
        } else {
            self.w
        }
    }

    open spec fn row_spec(&self, i: int) -> Vec4<T> {
        Vec4 { x: self.x.comp(i), y: self.y.comp(i), z: self.z.comp(i), w: self.w.comp(i) }
    }

    open spec fn identity_spec() -> Self {
        Self::from_value_spec(T::one_spec())
    }

    open spec fn zero_spec() -> Self {
        Self::from_value_spec(T::zero_spec())
    }

    open spec fn mul_t_spec(&self, value: T) -> Self {
        Mat4 {
            x: self.x.mul_t_spec(value),
            y: self.y.mul_t_spec(value),
            z: self.z.mul_t_spec(value),
            w: self.w.mul_t_spec(value),
        }
    }

    open spec fn mul_v_spec(&self, v: Vec4<T>) -> Vec4<T> {
        Vec4 {
            x: self.row_spec(0).dot_spec(v),
            y: self.row_spec(1).dot_spec(v),
            z: self.row_spec(2).dot_spec(v),
            w: self.row_spec(3).dot_spec(v),
        }
    }

    open spec fn add_m_spec(&self, o: Self) -> Self {
        Mat4 {
            x: self.x.add_v_spec(o.x),
            y: self.y.add_v_spec(o.y),
            z: self.z.add_v_spec(o.z),
            w: self.w.add_v_spec(o.w),
        }
    }

    open spec fn sub_m_spec(&self, o: Self) -> Self {
        Mat4 {
            x: self.x.sub_v_spec(o.x),
            y: self.y.sub_v_spec(o.y),
            z: self.z.sub_v_spec(o.z),
            w: self.w.sub_v_spec(o.w),
        }
    }

    open spec fn mul_m_spec(&self, o: Self) -> Self {
        Mat4 {
            x: self.mul_v_spec(o.x),
            y: self.mul_v_spec(o.y),
            z: self.mul_v_spec(o.z),
            w: self.mul_v_spec(o.w),
        }
    }

    /// Cofactor expansion along row 0, with the signs `+ - + -`.
    open spec fn determinant_spec(&self) -> T {
        let (c0, c1, c2, c3) = (self.x, self.y, self.z, self.w);
        T::sub_spec(
            T::add_spec(
                T::sub_spec(
                    T::mul_spec(c0.x, minor_spec(c1, c2, c3).determinant_spec()),
                    T::mul_spec(c1.x, minor_spec(c0, c2, c3).determinant_spec()),
                ),
                T::mul_spec(c2.x, minor_spec(c0, c1, c3).determinant_spec()),
            ),
            T::mul_spec(c3.x, minor_spec(c0, c1, c2).determinant_spec()),
        )
    }

    open spec fn trace_spec(&self) -> T {
        T::add_spec(T::add_spec(T::add_spec(self.x.x, self.y.y), self.z.z), self.w.w)
    }

    /// What Gauss-Jordan elimination with partial pivoting makes of the
    /// identity, applied alongside to the matrix.
    open spec fn inverse_spec(&self) -> Option<Self> {
        if T::fuzzy_eq_spec(self.determinant_spec(), T::zero_spec()) {
            None
        } else {
            Some(Self::gauss_jordan_from(*self, Self::identity_spec(), 0).1)
        }
    }

    open spec fn transpose_spec(&self) -> Self {
        Self::new_spec(
            self.x.x,
            self.y.x,
            self.z.x,
            self.w.x,
            self.x.y,
            self.y.y,
            self.z.y,
            self.w.y,
            self.x.z,
            self.y.z,
            self.z.z,
            self.w.z,
            self.x.w,
            self.y.w,
            self.z.w,
            self.w.w,
        )
    }

    open spec fn neg_spec(&self) -> Self {
        Mat4 {
            x: self.x.neg_spec(),
            y: self.y.neg_spec(),
            z: self.z.neg_spec(),
            w: self.w.neg_spec(),
        }
    }

    open spec fn fuzzy_eq_spec(&self, o: Self) -> bool {
        &&& self.x.fuzzy_eq_spec(o.x)
        &&& self.y.fuzzy_eq_spec(o.y)
        &&& self.z.fuzzy_eq_spec(o.z)
        &&& self.w.fuzzy_eq_spec(o.w)
    }

    open spec fn is_diagonal_spec(&self) -> bool {
        let z = T::zero_spec();
        &&& T::fuzzy_eq_spec(self.x.y, z)
        &&& T::fuzzy_eq_spec(self.x.z, z)
        &&& T::fuzzy_eq_spec(self.x.w, z)
        &&& T::fuzzy_eq_spec(self.y.x, z)
        &&& T::fuzzy_eq_spec(self.y.z, z)
        &&& T::fuzzy_eq_spec(self.y.w, z)
        &&& T::fuzzy_eq_spec(self.z.x, z)
        &&& T::fuzzy_eq_spec(self.z.y, z)
        &&& T::fuzzy_eq_spec(self.z.w, z)
        &&& T::fuzzy_eq_spec(self.w.x, z)
        &&& T::fuzzy_eq_spec(self.w.y, z)
        &&& T::fuzzy_eq_spec(self.w.z, z)
    }

    open spec fn is_symmetric_spec(&self) -> bool {
        &&& T::fuzzy_eq_spec(self.x.y, self.y.x)
        &&& T::fuzzy_eq_spec(self.x.z, self.z.x)
        &&& T::fuzzy_eq_spec(self.x.w, self.w.x)
        &&& T::fuzzy_eq_spec(self.y.x, self.x.y)
        &&& T::fuzzy_eq_spec(self.y.z, self.z.y)
        &&& T::fuzzy_eq_spec(self.y.w, self.w.y)
        &&& T::fuzzy_eq_spec(self.z.x, self.x.z)
        &&& T::fuzzy_eq_spec(self.z.y, self.y.z)
        &&& T::fuzzy_eq_spec(self.z.w, self.w.z)
        &&& T::fuzzy_eq_spec(self.w.x, self.x.w)
        &&& T::fuzzy_eq_spec(self.w.y, self.y.w)
        &&& T::fuzzy_eq_spec(self.w.z, self.z.w)
    }

    open spec fn diagonal_is_reflexive(&self) -> bool {
        &&& T::fuzzy_eq_spec(self.x.x, self.x.x)
        &&& T::fuzzy_eq_spec(self.y.y, self.y.y)
        &&& T::fuzzy_eq_spec(self.z.z, self.z.z)
        &&& T::fuzzy_eq_spec(self.w.w, self.w.w)
    }

    fn dim() -> (r: usize) {
        4
    }

    fn col(&self, i: usize) -> (r: Vec4<T>) {
        if i == 0 {
            self.x
        } else if i == 1 {
            self.y
        } else if i == 2 {
            self.z
        } else {
            self.w
        }
    }

    fn row(&self, i: usize) -> (r: Vec4<T>) {
        Vec4::new(self.x.index(i), self.y.index(i), self.z.index(i), self.w.index(i))
    }

    fn identity() -> (r: Self) {
        Mat4::from_value(T::one())
    }

    fn zero() -> (r: Self) {
        Mat4::from_value(T::zero())
    }

    fn mul_t(&self, value: T) -> (r: Self) {
        Mat4::from_cols(
            self.x.mul_t(value),
            self.y.mul_t(value),
            self.z.mul_t(value),
            self.w.mul_t(value),
        )
    }

    fn mul_v(&self, v: &Vec4<T>) -> (r: Vec4<T>) {
        Vec4::new(self.row(0).dot(v), self.row(1).dot(v), self.row(2).dot(v), self.row(3).dot(v))
    }

    fn add_m(&self, o: &Self) -> (r: Self) {
        Mat4::from_cols(self.x.add_v(&o.x), self.y.add_v(&o.y), self.z.add_v(&o.z), self.w.add_v(&o.w))
    }

    fn sub_m(&self, o: &Self) -> (r: Self) {
        Mat4::from_cols(self.x.sub_v(&o.x), self.y.sub_v(&o.y), self.z.sub_v(&o.z), self.w.sub_v(&o.w))
    }

    fn mul_m(&self, o: &Self) -> (r: Self) {
        Mat4::from_cols(
            self.mul_v(&o.col(0)),
            self.mul_v(&o.col(1)),
            self.mul_v(&o.col(2)),
            self.mul_v(&o.col(3)),
        )
    }

    fn dot(&self, o: &Self) -> (r: T) {
        o.transpose().mul_m(self).trace()
    }

    fn determinant(&self) -> (r: T) {
        let (c0, c1, c2, c3) = (&self.x, &self.y, &self.z, &self.w);
        let t0 = c0.x.mul(minor(c1, c2, c3).determinant());
        let t1 = c1.x.mul(minor(c0, c2, c3).determinant());
        let t2 = c2.x.mul(minor(c0, c1, c3).determinant());
        let t3 = c3.x.mul(minor(c0, c1, c2).determinant());
        t0.sub(t1).add(t2).sub(t3)
    }

    fn trace(&self) -> (r: T) {
        self.x.x.add(self.y.y).add(self.z.z).add(self.w.w)
    }

    fn inverse(&self) -> (r: Option<Self>) {
        let d = self.determinant();
        if d.fuzzy_eq(T::zero()) {
            None
        } else {
            let mut a = *self;
            let mut b = Self::identity();
            Self::gauss_jordan(&mut a, &mut b);
            Some(b)
        }
    }

    fn transpose(&self) -> (r: Self) {
        let (c0, c1, c2, c3) = (&self.x, &self.y, &self.z, &self.w);
        Mat4::new(
            c0.x, c1.x, c2.x, c3.x,
            c0.y, c1.y, c2.y, c3.y,
            c0.z, c1.z, c2.z, c3.z,
            c0.w, c1.w, c2.w, c3.w,
        )
    }

    fn neg(&self) -> (r: Self) {
        Mat4::from_cols(self.x.neg(), self.y.neg(), self.z.neg(), self.w.neg())
    }

    fn fuzzy_eq(&self, o: &Self) -> (r: bool) {
        self.x.fuzzy_eq(&o.x) && self.y.fuzzy_eq(&o.y) && self.z.fuzzy_eq(&o.z) && self.w.fuzzy_eq(
            &o.w,
        )
    }

    fn is_identity(&self) -> (r: bool) {
        self.fuzzy_eq(&Self::identity())
    }

    fn is_diagonal(&self) -> (r: bool) {
        let z = T::zero();
        self.x.y.fuzzy_eq(z)
            && self.x.z.fuzzy_eq(z)
            && self.x.w.fuzzy_eq(z)
            && self.y.x.fuzzy_eq(z)
            && self.y.z.fuzzy_eq(z)
            && self.y.w.fuzzy_eq(z)
            && self.z.x.fuzzy_eq(z)
            && self.z.y.fuzzy_eq(z)
            && self.z.w.fuzzy_eq(z)
            && self.w.x.fuzzy_eq(z)
            && self.w.y.fuzzy_eq(z)
            && self.w.z.fuzzy_eq(z)
    }

    fn is_rotated(&self) -> (r: bool) {
        !self.fuzzy_eq(&Self::identity())
    }

    fn is_symmetric(&self) -> (r: bool) {
        self.x.y.fuzzy_eq(self.y.x)
            && self.x.z.fuzzy_eq(self.z.x)
            && self.x.w.fuzzy_eq(self.w.x)
            && self.y.x.fuzzy_eq(self.x.y)
            && self.y.z.fuzzy_eq(self.z.y)
            && self.y.w.fuzzy_eq(self.w.y)
            && self.z.x.fuzzy_eq(self.x.z)
            && self.z.y.fuzzy_eq(self.y.z)
            && self.z.w.fuzzy_eq(self.w.z)
            && self.w.x.fuzzy_eq(self.x.w)
            && self.w.y.fuzzy_eq(self.y.w)
            && self.w.z.fuzzy_eq(self.z.w)
    }

    fn is_invertible(&self) -> (r: bool) {
        !self.determinant().fuzzy_eq(T::zero())
    }

    proof fn lemma_transpose_transpose(&self) {
    }

    proof fn lemma_symmetric_iff_fuzzy_eq_transpose(&self) {
    }
}

impl<T: Scalar> MutableMatrix<T, Vec4<T>> for Mat4<T> {
    open spec fn with_col_spec(&self, i: int, v: Vec4<T>) -> Self {
        self.with_col(i, v)
    }

    open spec fn swap_rows_spec(&self, a: int, b: int) -> Self {
        Mat4 {
            x: self.x.swapped(a, b),
            y: self.y.swapped(a, b),
            z: self.z.swapped(a, b),
            w: self.w.swapped(a, b),
        }
    }

    fn col_mut(&mut self, i: usize) -> (r: &mut Vec4<T>) {
        if i == 0 {
            &mut self.x
        } else if i == 1 {
            &mut self.y
        } else if i == 2 {
            &mut self.z
        } else {
            &mut self.w
        }
    }

    fn swap_cols(&mut self, a: usize, b: usize) {
        self.exchange_cols(a, b);
    }

    fn swap_rows(&mut self, a: usize, b: usize) {
        self.x.swap(a, b);
        self.y.swap(a, b);
        self.z.swap(a, b);
        self.w.swap(a, b);
    }

    fn set(&mut self, o: &Self) {
        *self = *o;
    }

    fn to_identity(&mut self) {
        *self = Self::identity();
    }

    fn to_zero(&mut self) {
        *self = Self::zero();
    }

    fn mul_self_t(&mut self, value: T) {
        self.x = self.x.mul_t(value);
        self.y = self.y.mul_t(value);
        self.z = self.z.mul_t(value);
        self.w = self.w.mul_t(value);
    }

    fn add_self_m(&mut self, o: &Self) {
        self.x = self.x.add_v(&o.x);
        self.y = self.y.add_v(&o.y);
        self.z = self.z.add_v(&o.z);
        self.w = self.w.add_v(&o.w);
    }

    fn sub_self_m(&mut self, o: &Self) {
        self.x = self.x.sub_v(&o.x);
        self.y = self.y.sub_v(&o.y);
        self.z = self.z.sub_v(&o.z);
        self.w = self.w.sub_v(&o.w);
    }

    fn invert_self(&mut self) {
        match self.inverse() {
            Some(m) => *self = m,
            None => {},
        }
    }

    /// Exchanges each element off the main diagonal with its mirror image.
    fn transpose_self(&mut self) {
        let t = self.x.y;
        self.x.y = self.y.x;
        self.y.x = t;
        let t = self.x.z;
        self.x.z = self.z.x;
        self.z.x = t;
        let t = self.x.w;
        self.x.w = self.w.x;
        self.w.x = t;
        let t = self.y.z;
        self.y.z = self.z.y;
        self.z.y = t;
        let t = self.y.w;
        self.y.w = self.w.y;
        self.w.y = t;
        let t = self.z.w;
        self.z.w = self.w.z;
        self.w.z = t;
    }
}

impl<T: Scalar> Matrix4<T, Vec4<T>> for Mat4<T> {

}

} // verus!
