use vstd::prelude::*;

use crate::scalar::Scalar;

verus! {

/// A vector of two components.
#[derive(Clone, Copy, Debug, PartialEq)]
pub struct Vec2<T> {
    pub x: T,
    pub y: T,
}

/// A vector of three components.
#[derive(Clone, Copy, Debug, PartialEq)]
pub struct Vec3<T> {
    pub x: T,
    pub y: T,
    pub z: T,
}

/// A vector of four components.
#[derive(Clone, Copy, Debug, PartialEq)]
pub struct Vec4<T> {
    pub x: T,
    pub y: T,
    pub z: T,
    pub w: T,
}

impl<T: Scalar> Vec2<T> {
    /// Component `i`, in the order `x`, `y`.
    pub open spec fn comp(self, i: int) -> T {
        if i == 0 {
            self.x
        } else {
            self.y
        }
    }

    /// This vector with component `i` replaced by `v`.
    pub open spec fn with_comp(self, i: int, v: T) -> Self {
        if i == 0 {
            Vec2 { x: v, ..self }
        } else {
            Vec2 { y: v, ..self }
        }
    }

    /// This vector with components `a` and `b` exchanged.
    pub open spec fn swapped(self, a: int, b: int) -> Self {
        self.with_comp(a, self.comp(b)).with_comp(b, self.comp(a))
    }

    pub open spec fn dot_spec(self, o: Self) -> T {
        T::add_spec(T::mul_spec(self.x, o.x), T::mul_spec(self.y, o.y))
    }

    pub open spec fn add_v_spec(self, o: Self) -> Self {
        Vec2 {
            x: T::add_spec(self.x, o.x),
            y: T::add_spec(self.y, o.y),
        }
    }

    pub open spec fn sub_v_spec(self, o: Self) -> Self {
        Vec2 {
            x: T::sub_spec(self.x, o.x),
            y: T::sub_spec(self.y, o.y),
        }
    }

    pub open spec fn mul_t_spec(self, t: T) -> Self {
        Vec2 {
            x: T::mul_spec(self.x, t),
            y: T::mul_spec(self.y, t),
        }
    }

    pub open spec fn div_t_spec(self, t: T) -> Self {
        Vec2 {
            x: T::div_spec(self.x, t),
            y: T::div_spec(self.y, t),
        }
    }

    pub open spec fn neg_spec(self) -> Self {
        Vec2 {
            x: T::neg_spec(self.x),
            y: T::neg_spec(self.y),
        }
    }

    pub open spec fn fuzzy_eq_spec(self, o: Self) -> bool {
        T::fuzzy_eq_spec(self.x, o.x)
            && T::fuzzy_eq_spec(self.y, o.y)
    }

    pub fn new(x: T, y: T) -> (r: Self)
        ensures
            r == (Vec2 { x, y }),
    {
        Vec2 { x, y }
    }

    /// Component `i`.
    pub fn index(&self, i: usize) -> (r: T)
        requires
            i < 2,
        ensures
            r == self.comp(i as int),
    {
        if i == 0 {
            self.x
        } else {
            self.y
        }
    }

    /// Replaces component `i` with `v`.
    pub fn set(&mut self, i: usize, v: T)
        requires
            i < 2,
        ensures
            *final(self) == old(self).with_comp(i as int, v),
    {
        if i == 0 {
            self.x = v;
        } else {
            self.y = v;
        }
    }

    /// Exchanges components `a` and `b`.
    pub fn swap(&mut self, a: usize, b: usize)
        requires
            a < 2,
            b < 2,
        ensures
            *final(self) == old(self).swapped(a as int, b as int),
    {
        let va = self.index(a);
        let vb = self.index(b);
        self.set(a, vb);
        self.set(b, va);
    }

    pub fn dot(&self, o: &Self) -> (r: T)
        ensures
            r == self.dot_spec(*o),
    {
        self.x.mul(o.x).add(self.y.mul(o.y))
    }

    pub fn add_v(&self, o: &Self) -> (r: Self)
        ensures
            r == self.add_v_spec(*o),
    {
        Vec2 {
            x: self.x.add(o.x),
            y: self.y.add(o.y),
        }
    }

    pub fn sub_v(&self, o: &Self) -> (r: Self)
        ensures
            r == self.sub_v_spec(*o),
    {
        Vec2 {
            x: self.x.sub(o.x),
            y: self.y.sub(o.y),
        }
    }

    pub fn mul_t(&self, t: T) -> (r: Self)
        ensures
            r == self.mul_t_spec(t),
    {
        Vec2 {
            x: self.x.mul(t),
            y: self.y.mul(t),
        }
    }

    pub fn div_t(&self, t: T) -> (r: Self)
        ensures
            r == self.div_t_spec(t),
    {
        Vec2 {
            x: self.x.div(t),
            y: self.y.div(t),
        }
    }

    pub fn neg(&self) -> (r: Self)
        ensures
            r == self.neg_spec(),
    {
        Vec2 {
            x: self.x.neg(),
            y: self.y.neg(),
        }
    }

    pub fn fuzzy_eq(&self, o: &Self) -> (r: bool)
        ensures
            r == self.fuzzy_eq_spec(*o),
    {
        self.x.fuzzy_eq(o.x)
            && self.y.fuzzy_eq(o.y)
    }
}

impl<T: Scalar> Vec3<T> {
    /// Component `i`, in the order `x`, `y`, `z`.
    pub open spec fn comp(self, i: int) -> T {
        if i == 0 {
            self.x
        } else if i == 1 {
            self.y
        } else {
            self.z
        }
    }

    /// This vector with component `i` replaced by `v`.
    pub open spec fn with_comp(self, i: int, v: T) -> Self {
        if i == 0 {
            Vec3 { x: v, ..self }
        } else if i == 1 {
            Vec3 { y: v, ..self }
        } else {
            Vec3 { z: v, ..self }
        }
    }

    /// This vector with components `a` and `b` exchanged.
    pub open spec fn swapped(self, a: int, b: int) -> Self {
        self.with_comp(a, self.comp(b)).with_comp(b, self.comp(a))
    }

    pub open spec fn dot_spec(self, o: Self) -> T {
        T::add_spec(T::add_spec(T::mul_spec(self.x, o.x), T::mul_spec(self.y, o.y)), T::mul_spec(self.z, o.z))
    }

    pub open spec fn add_v_spec(self, o: Self) -> Self {
        Vec3 {
            x: T::add_spec(self.x, o.x),
            y: T::add_spec(self.y, o.y),
            z: T::add_spec(self.z, o.z),
        }
    }

    pub open spec fn sub_v_spec(self, o: Self) -> Self {
        Vec3 {
            x: T::sub_spec(self.x, o.x),
            y: T::sub_spec(self.y, o.y),
            z: T::sub_spec(self.z, o.z),
        }
    }

    pub open spec fn mul_t_spec(self, t: T) -> Self {
        Vec3 {
            x: T::mul_spec(self.x, t),
            y: T::mul_spec(self.y, t),
            z: T::mul_spec(self.z, t),
        }
    }

    pub open spec fn div_t_spec(self, t: T) -> Self {
        Vec3 {
            x: T::div_spec(self.x, t),
            y: T::div_spec(self.y, t),
            z: T::div_spec(self.z, t),
        }
    }

    pub open spec fn neg_spec(self) -> Self {
        Vec3 {
            x: T::neg_spec(self.x),
            y: T::neg_spec(self.y),
            z: T::neg_spec(self.z),
        }
    }

    pub open spec fn fuzzy_eq_spec(self, o: Self) -> bool {
        T::fuzzy_eq_spec(self.x, o.x)
            && T::fuzzy_eq_spec(self.y, o.y)
            && T::fuzzy_eq_spec(self.z, o.z)
    }

    pub open spec fn cross_spec(self, o: Self) -> Self {
        Vec3 {
            x: T::sub_spec(T::mul_spec(self.y, o.z), T::mul_spec(self.z, o.y)),
            y: T::sub_spec(T::mul_spec(self.z, o.x), T::mul_spec(self.x, o.z)),
            z: T::sub_spec(T::mul_spec(self.x, o.y), T::mul_spec(self.y, o.x)),
        }
    }

    pub fn new(x: T, y: T, z: T) -> (r: Self)
        ensures
            r == (Vec3 { x, y, z }),
    {
        Vec3 { x, y, z }
    }

    /// Component `i`.
    pub fn index(&self, i: usize) -> (r: T)
        requires
            i < 3,
        ensures
            r == self.comp(i as int),
    {
        if i == 0 {
            self.x
        } else if i == 1 {
            self.y
        } else {
            self.z
        }
    }

    /// Replaces component `i` with `v`.
    pub fn set(&mut self, i: usize, v: T)
        requires
            i < 3,
        ensures
            *final(self) == old(self).with_comp(i as int, v),
    {
        if i == 0 {
            self.x = v;
        } else if i == 1 {
            self.y = v;
        } else {
            self.z = v;
        }
    }

    /// Exchanges components `a` and `b`.
    pub fn swap(&mut self, a: usize, b: usize)
        requires
            a < 3,
            b < 3,
        ensures
            *final(self) == old(self).swapped(a as int, b as int),
    {
        let va = self.index(a);
        let vb = self.index(b);
        self.set(a, vb);
        self.set(b, va);
    }

    pub fn dot(&self, o: &Self) -> (r: T)
        ensures
            r == self.dot_spec(*o),
    {
        self.x.mul(o.x).add(self.y.mul(o.y)).add(self.z.mul(o.z))
    }

    pub fn add_v(&self, o: &Self) -> (r: Self)
        ensures
            r == self.add_v_spec(*o),
    {
        Vec3 {
            x: self.x.add(o.x),
            y: self.y.add(o.y),
            z: self.z.add(o.z),
        }
    }

    pub fn sub_v(&self, o: &Self) -> (r: Self)
        ensures
            r == self.sub_v_spec(*o),
    {
        Vec3 {
            x: self.x.sub(o.x),
            y: self.y.sub(o.y),
            z: self.z.sub(o.z),
        }
    }

    pub fn mul_t(&self, t: T) -> (r: Self)
        ensures
            r == self.mul_t_spec(t),
    {
        Vec3 {
            x: self.x.mul(t),
            y: self.y.mul(t),
            z: self.z.mul(t),
        }
    }

    pub fn div_t(&self, t: T) -> (r: Self)
        ensures
            r == self.div_t_spec(t),
    {
        Vec3 {
            x: self.x.div(t),
            y: self.y.div(t),
            z: self.z.div(t),
        }
    }

    pub fn neg(&self) -> (r: Self)
        ensures
            r == self.neg_spec(),
    {
        Vec3 {
            x: self.x.neg(),
            y: self.y.neg(),
            z: self.z.neg(),
        }
    }

    pub fn fuzzy_eq(&self, o: &Self) -> (r: bool)
        ensures
            r == self.fuzzy_eq_spec(*o),
    {
        self.x.fuzzy_eq(o.x)
            && self.y.fuzzy_eq(o.y)
            && self.z.fuzzy_eq(o.z)
    }

    pub fn cross(&self, o: &Self) -> (r: Self)
        ensures
            r == self.cross_spec(*o),
    {
        Vec3 {
            x: self.y.mul(o.z).sub(self.z.mul(o.y)),
            y: self.z.mul(o.x).sub(self.x.mul(o.z)),
            z: self.x.mul(o.y).sub(self.y.mul(o.x)),
        }
    }
}

impl<T: Scalar> Vec4<T> {
    /// Component `i`, in the order `x`, `y`, `z`, `w`.
    pub open spec fn comp(self, i: int) -> T {
        if i == 0 {
            self.x
        } else if i == 1 {
            self.y
        } else if i == 2 {
            self.z
        } else {
            self.w
        }
    }

    /// This vector with component `i` replaced by `v`.
    pub open spec fn with_comp(self, i: int, v: T) -> Self {
        if i == 0 {
            Vec4 { x: v, ..self }
        } else if i == 1 {
            Vec4 { y: v, ..self }
        } else if i == 2 {
            Vec4 { z: v, ..self }
        } else {
            Vec4 { w: v, ..self }
        }
    }

    /// This vector with components `a` and `b` exchanged.
    pub open spec fn swapped(self, a: int, b: int) -> Self {
        self.with_comp(a, self.comp(b)).with_comp(b, self.comp(a))
    }

    pub open spec fn dot_spec(self, o: Self) -> T {
        T::add_spec(T::add_spec(T::add_spec(T::mul_spec(self.x, o.x), T::mul_spec(self.y, o.y)), T::mul_spec(self.z, o.z)), T::mul_spec(self.w, o.w))
    }

    pub open spec fn add_v_spec(self, o: Self) -> Self {
        Vec4 {
            x: T::add_spec(self.x, o.x),
            y: T::add_spec(self.y, o.y),
            z: T::add_spec(self.z, o.z),
            w: T::add_spec(self.w, o.w),
        }
    }

    pub open spec fn sub_v_spec(self, o: Self) -> Self {
        Vec4 {
            x: T::sub_spec(self.x, o.x),
            y: T::sub_spec(self.y, o.y),
            z: T::sub_spec(self.z, o.z),
            w: T::sub_spec(self.w, o.w),
        }
    }

    pub open spec fn mul_t_spec(self, t: T) -> Self {
        Vec4 {
            x: T::mul_spec(self.x, t),
            y: T::mul_spec(self.y, t),
            z: T::mul_spec(self.z, t),
            w: T::mul_spec(self.w, t),
        }
    }

    pub open spec fn div_t_spec(self, t: T) -> Self {
        Vec4 {
            x: T::div_spec(self.x, t),
            y: T::div_spec(self.y, t),
            z: T::div_spec(self.z, t),
            w: T::div_spec(self.w, t),
        }
    }

    pub open spec fn neg_spec(self) -> Self {
        Vec4 {
            x: T::neg_spec(self.x),
            y: T::neg_spec(self.y),
            z: T::neg_spec(self.z),
            w: T::neg_spec(self.w),
        }
    }

    pub open spec fn fuzzy_eq_spec(self, o: Self) -> bool {
        T::fuzzy_eq_spec(self.x, o.x)
            && T::fuzzy_eq_spec(self.y, o.y)
            && T::fuzzy_eq_spec(self.z, o.z)
            && T::fuzzy_eq_spec(self.w, o.w)
    }

    pub fn new(x: T, y: T, z: T, w: T) -> (r: Self)
        ensures
            r == (Vec4 { x, y, z, w }),
    {
        Vec4 { x, y, z, w }
    }

    /// Component `i`.
    pub fn index(&self, i: usize) -> (r: T)
        requires
            i < 4,
        ensures
            r == self.comp(i as int),
    {
        if i == 0 {
            self.x
        } else if i == 1 {
            self.y
        } else if i == 2 {
            self.z
        } else {
            self.w
        }
    }

    /// Replaces component `i` with `v`.
    pub fn set(&mut self, i: usize, v: T)
        requires
            i < 4,
        ensures
            *final(self) == old(self).with_comp(i as int, v),
    {
        if i == 0 {
            self.x = v;
        } else if i == 1 {
            self.y = v;
        } else if i == 2 {
            self.z = v;
        } else {
            self.w = v;
        }
    }

    /// Exchanges components `a` and `b`.
    pub fn swap(&mut self, a: usize, b: usize)
        requires
            a < 4,
            b < 4,
        ensures
            *final(self) == old(self).swapped(a as int, b as int),
    {
        let va = self.index(a);
        let vb = self.index(b);
        self.set(a, vb);
        self.set(b, va);
    }

    pub fn dot(&self, o: &Self) -> (r: T)
        ensures
            r == self.dot_spec(*o),
    {
        self.x.mul(o.x).add(self.y.mul(o.y)).add(self.z.mul(o.z)).add(self.w.mul(o.w))
    }

    pub fn add_v(&self, o: &Self) -> (r: Self)
        ensures
            r == self.add_v_spec(*o),
    {
        Vec4 {
            x: self.x.add(o.x),
            y: self.y.add(o.y),
            z: self.z.add(o.z),
            w: self.w.add(o.w),
        }
    }

    pub fn sub_v(&self, o: &Self) -> (r: Self)
        ensures
            r == self.sub_v_spec(*o),
    {
        Vec4 {
            x: self.x.sub(o.x),
            y: self.y.sub(o.y),
            z: self.z.sub(o.z),
            w: self.w.sub(o.w),
        }
    }

    pub fn mul_t(&self, t: T) -> (r: Self)
        ensures
            r == self.mul_t_spec(t),
    {
        Vec4 {
            x: self.x.mul(t),
            y: self.y.mul(t),
            z: self.z.mul(t),
            w: self.w.mul(t),
        }
    }

    pub fn div_t(&self, t: T) -> (r: Self)
        ensures
            r == self.div_t_spec(t),
    {
        Vec4 {
            x: self.x.div(t),
            y: self.y.div(t),
            z: self.z.div(t),
            w: self.w.div(t),
        }
    }

    pub fn neg(&self) -> (r: Self)
        ensures
            r == self.neg_spec(),
    {
        Vec4 {
            x: self.x.neg(),
            y: self.y.neg(),
            z: self.z.neg(),
            w: self.w.neg(),
        }
    }

    pub fn fuzzy_eq(&self, o: &Self) -> (r: bool)
        ensures
            r == self.fuzzy_eq_spec(*o),
    {
        self.x.fuzzy_eq(o.x)
            && self.y.fuzzy_eq(o.y)
            && self.z.fuzzy_eq(o.z)
            && self.w.fuzzy_eq(o.w)
    }
}

} // verus!
