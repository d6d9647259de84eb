use vstd::prelude::*;

verus! {

/// The number type that matrix elements are made of.
///
/// Every operation is a function of its operands: each exec method returns
/// exactly what its spec function gives on the same arguments. No algebraic
/// law is assumed of these operations, so every contract of the library
/// states the precise expression that it computes, in the order in which
/// it computes it. An implementation for a floating-point type meets this
/// trait as long as its operations are deterministic.
pub trait Scalar: Copy + Sized {
    /// The additive identity.
    spec fn zero_spec() -> Self;

    /// The multiplicative identity.
    spec fn one_spec() -> Self;

    spec fn add_spec(a: Self, b: Self) -> Self;

    spec fn sub_spec(a: Self, b: Self) -> Self;

    spec fn mul_spec(a: Self, b: Self) -> Self;

    spec fn div_spec(a: Self, b: Self) -> Self;

    spec fn neg_spec(a: Self) -> Self;

    spec fn abs_spec(a: Self) -> Self;

    /// `a > b`.
    spec fn gt_spec(a: Self, b: Self) -> bool;

    /// `a >= b`.
    spec fn ge_spec(a: Self, b: Self) -> bool;

    /// Equality within the type's tolerance.
    spec fn fuzzy_eq_spec(a: Self, b: Self) -> bool;

    spec fn sqrt_spec(a: Self) -> Self;

    spec fn sin_spec(a: Self) -> Self;

    spec fn cos_spec(a: Self) -> Self;

    spec fn tan_spec(a: Self) -> Self;

    /// An angle in degrees, converted to radians.
    spec fn to_radians_spec(a: Self) -> Self;

    fn zero() -> (r: Self)
        ensures
            r == Self::zero_spec(),
    ;

    fn one() -> (r: Self)
        ensures
            r == Self::one_spec(),
    ;

    fn add(self, o: Self) -> (r: Self)
        ensures
            r == Self::add_spec(self, o),
    ;

    fn sub(self, o: Self) -> (r: Self)
        ensures
            r == Self::sub_spec(self, o),
    ;

    fn mul(self, o: Self) -> (r: Self)
        ensures
            r == Self::mul_spec(self, o),
    ;

    fn div(self, o: Self) -> (r: Self)
        ensures
            r == Self::div_spec(self, o),
    ;

    fn neg(self) -> (r: Self)
        ensures
            r == Self::neg_spec(self),
    ;

    fn abs(self) -> (r: Self)
        ensures
            r == Self::abs_spec(self),
    ;

    fn gt(self, o: Self) -> (r: bool)
        ensures
            r == Self::gt_spec(self, o),
    ;

    fn ge(self, o: Self) -> (r: bool)
        ensures
            r == Self::ge_spec(self, o),
    ;

    fn fuzzy_eq(self, o: Self) -> (r: bool)
        ensures
            r == Self::fuzzy_eq_spec(self, o),
    ;

    fn sqrt(self) -> (r: Self)
        ensures
            r == Self::sqrt_spec(self),
    ;

    fn sin(self) -> (r: Self)
        ensures
            r == Self::sin_spec(self),
    ;

    fn cos(self) -> (r: Self)
        ensures
            r == Self::cos_spec(self),
    ;

    fn tan(self) -> (r: Self)
        ensures
            r == Self::tan_spec(self),
    ;

    fn to_radians(self) -> (r: Self)
        ensures
            r == Self::to_radians_spec(self),
    ;
}

/// The constant two, as `1 + 1`.
pub open spec fn two_spec<T: Scalar>() -> T {
    T::add_spec(T::one_spec(), T::one_spec())
}

/// The constant one half, as `1 / (1 + 1)`.
pub open spec fn half_spec<T: Scalar>() -> T {
    T::div_spec(T::one_spec(), two_spec::<T>())
}

/// Returns `1 + 1`.
pub fn two<T: Scalar>() -> (r: T)
    ensures
        r == two_spec::<T>(),
{
    T::one().add(T::one())
}

/// Returns `1 / (1 + 1)`.
pub fn half<T: Scalar>() -> (r: T)
    ensures
        r == half_spec::<T>(),
{
    T::one().div(two::<T>())
}

} // verus!
