use vstd::prelude::*;

verus! {

/// Arithmetic contract for scalar component types.
///
/// A scalar model is described by the `..._spec` functions; each executable
/// operation promises to return exactly what its spec counterpart denotes, so
/// every vector, quaternion, and pose operation built on top of them has an
/// exact componentwise description. The proof obligations at the end state the
/// identity and annihilation laws that the geometric identities of this crate
/// rest on; exact scalar models (integers, fixed-point) satisfy them outright,
/// while rounded models (floating point) satisfy them on the identity values
/// the laws are invoked at.
pub trait Scalar: Sized + Copy {
    /// Additive identity of the model.
    spec fn zero_spec() -> Self;

    /// Multiplicative identity of the model.
    spec fn one_spec() -> Self;

    /// Threshold under which a magnitude counts as degenerate.
    spec fn epsilon_spec() -> Self;

    /// Model of addition.
    spec fn plus_spec(self, other: Self) -> Self;

    /// Model of subtraction.
    spec fn minus_spec(self, other: Self) -> Self;

    /// Model of multiplication.
    spec fn times_spec(self, other: Self) -> Self;

    /// Model of division. What a zero divisor yields is the scalar model's
    /// own business; the checked operations of this crate never divide by a
    /// value the model calls degenerate.
    spec fn over_spec(self, other: Self) -> Self;

    /// Model of negation.
    spec fn neg_spec(self) -> Self;

    /// Model of the strict order.
    spec fn lt_spec(self, other: Self) -> bool;

    /// Model of the non-strict order.
    spec fn le_spec(self, other: Self) -> bool;

    fn zero() -> (r: Self)
        ensures
            r == Self::zero_spec(),
    ;

    fn one() -> (r: Self)
        ensures
            r == Self::one_spec(),
    ;

    fn epsilon() -> (r: Self)
        ensures
            r == Self::epsilon_spec(),
    ;

    fn plus(self, other: Self) -> (r: Self)
        ensures
            r == self.plus_spec(other),
    ;

    fn minus(self, other: Self) -> (r: Self)
        ensures
            r == self.minus_spec(other),
    ;

    fn times(self, other: Self) -> (r: Self)
        ensures
            r == self.times_spec(other),
    ;

    fn over(self, other: Self) -> (r: Self)
        ensures
            r == self.over_spec(other),
    ;

    fn negated(self) -> (r: Self)
        ensures
            r == self.neg_spec(),
    ;

    fn less_than(self, other: Self) -> (r: bool)
        ensures
            r == self.lt_spec(other),
    ;

    fn less_eq(self, other: Self) -> (r: bool)
        ensures
            r == self.le_spec(other),
    ;

    /// Zero annihilates multiplication.
    proof fn times_zero(a: Self)
        ensures
            a.times_spec(Self::zero_spec()) == Self::zero_spec(),
            Self::zero_spec().times_spec(a) == Self::zero_spec(),
    ;

    /// One is the multiplicative identity.
    proof fn times_one(a: Self)
        ensures
            a.times_spec(Self::one_spec()) == a,
            Self::one_spec().times_spec(a) == a,
    ;

    /// Zero is the additive identity.
    proof fn plus_zero(a: Self)
        ensures
            a.plus_spec(Self::zero_spec()) == a,
            Self::zero_spec().plus_spec(a) == a,
    ;

    /// Subtracting zero changes nothing.
    proof fn minus_zero(a: Self)
        ensures
            a.minus_spec(Self::zero_spec()) == a,
    ;

    /// Negating zero yields zero.
    proof fn neg_zero()
        ensures
            Self::zero_spec().neg_spec() == Self::zero_spec(),
    ;

    /// A value and its negation sum to zero, in either order.
    proof fn plus_neg(a: Self)
        ensures
            a.plus_spec(a.neg_spec()) == Self::zero_spec(),
            a.neg_spec().plus_spec(a) == Self::zero_spec(),
    ;

    /// The degeneracy threshold is strictly positive.
    proof fn epsilon_positive()
        ensures
            Self::zero_spec().lt_spec(Self::epsilon_spec()),
    ;
}

/// Instantiates the identity and annihilation laws of the scalar model at
/// one value.
pub proof fn lemma_scalar_identities<T: Scalar>(a: T)
    ensures
        a.times_spec(T::zero_spec()) == T::zero_spec(),
        T::zero_spec().times_spec(a) == T::zero_spec(),
        a.times_spec(T::one_spec()) == a,
        T::one_spec().times_spec(a) == a,
        a.plus_spec(T::zero_spec()) == a,
        T::zero_spec().plus_spec(a) == a,
        a.minus_spec(T::zero_spec()) == a,
{
    T::times_zero(a);
    T::times_one(a);
    T::plus_zero(a);
    T::minus_zero(a);
}

/// Contract for types implementing the square root operation.
///
/// The output may differ from the input type: for a unit-carrying squared
/// quantity the square root lands in the linear quantity type, while for a
/// plain scalar it is the type itself.
pub trait Sqrt: Sized {
    /// Output type.
    type Output;

    /// Model of the square root. Its value on negative inputs is the
    /// implementing type's own business; a sum of squares of an ordered
    /// scalar model never produces one.
    spec fn sqrt_spec(self) -> Self::Output;

    /// Calculate square root of this value.
    fn sqrt(self) -> (r: Self::Output)
        ensures
            r == self.sqrt_spec(),
    ;
}

/// Contract for types exposing a magnitude of their own.
pub trait Norm {
    /// Output type.
    type Output;

    /// Calculate the magnitude of this value.
    fn norm(self) -> Self::Output;
}

/// Trigonometric contract for scalar types that measure angles.
///
/// Extends [`Scalar`] with the operations angle-axis conversion and spherical
/// interpolation need, and requires the square root of the model's zero to be
/// zero, so that the magnitude of the zero vector is degenerate.
pub trait Trig: Scalar + Sqrt<Output = Self> {
    /// Model of the sine.
    spec fn sin_spec(self) -> Self;

    /// Model of the cosine.
    spec fn cos_spec(self) -> Self;

    /// Model of the inverse cosine over [-1, 1].
    spec fn acos_spec(self) -> Self;

    fn sin(self) -> (r: Self)
        ensures
            r == self.sin_spec(),
    ;

    fn cos(self) -> (r: Self)
        ensures
            r == self.cos_spec(),
    ;

    fn acos(self) -> (r: Self)
        ensures
            r == self.acos_spec(),
    ;

    /// The square root of zero is zero.
    proof fn sqrt_zero()
        ensures
            Self::zero_spec().sqrt_spec() == Self::zero_spec(),
    ;
}

} // verus!
