use vstd::prelude::*;

use crate::ops::{Scalar, Sqrt, Trig};

verus! {

/// A 3-component spatial quantity: point, direction, or displacement.
///
/// No invariant is imposed on the components; the zero vector is a valid but
/// degenerate value for the direction-dependent operations.
#[derive(Clone, Copy, Debug, PartialEq, Eq, PartialOrd, Ord)]
pub struct Vector<T> {
    pub x: T,
    pub y: T,
    pub z: T,
}

impl<T> Vector<T> {
    /// Create a vector from its three components.
    pub fn new(x: T, y: T, z: T) -> (r: Self)
        ensures
            r == (Vector { x, y, z }),
    {
        Self { x, y, z }
    }

    /// Apply `mapper` to each component in turn.
    pub fn map<F: Fn(T) -> R, R>(self, mapper: F) -> (r: Vector<R>)
        requires
            call_requires(mapper, (self.x,)),
            call_requires(mapper, (self.y,)),
            call_requires(mapper, (self.z,)),
        ensures
            call_ensures(mapper, (self.x,), r.x),
            call_ensures(mapper, (self.y,), r.y),
            call_ensures(mapper, (self.z,), r.z),
    {
        Vector { x: mapper(self.x), y: mapper(self.y), z: mapper(self.z) }
    }

    /// Read access to the first component.
    pub fn x_ref(&self) -> (r: &T)
        ensures
            *r == self.x,
    {
        &self.x
    }

    /// Write access to the first component.
    pub fn x_mut(&mut self) -> (r: &mut T)
        ensures
            *r == old(self).x,
            *final(self) == (Vector { x: *final(r), y: old(self).y, z: old(self).z }),
    {
        &mut self.x
    }

    /// Replace the first component.
    pub fn set_x(&mut self, x: T)
        ensures
            *final(self) == (Vector { x, y: old(self).y, z: old(self).z }),
    {
        self.x = x;
    }

    /// Read access to the second component.
    pub fn y_ref(&self) -> (r: &T)
        ensures
            *r == self.y,
    {
        &self.y
    }

    /// Write access to the second component.
    pub fn y_mut(&mut self) -> (r: &mut T)
        ensures
            *r == old(self).y,
            *final(self) == (Vector { x: old(self).x, y: *final(r), z: old(self).z }),
    {
        &mut self.y
    }

    /// Replace the second component.
    pub fn set_y(&mut self, y: T)
        ensures
            *final(self) == (Vector { x: old(self).x, y, z: old(self).z }),
    {
        self.y = y;
    }

    /// Read access to the third component.
    pub fn z_ref(&self) -> (r: &T)
        ensures
            *r == self.z,
    {
        &self.z
    }

    /// Write access to the third component.
    pub fn z_mut(&mut self) -> (r: &mut T)
        ensures
            *r == old(self).z,
            *final(self) == (Vector { x: old(self).x, y: old(self).y, z: *final(r) }),
    {
        &mut self.z
    }

    /// Replace the third component.
    pub fn set_z(&mut self, z: T)
        ensures
            *final(self) == (Vector { x: old(self).x, y: old(self).y, z }),
    {
        self.z = z;
    }
}

impl<T: Copy> Vector<T> {
    /// The first component, by value.
    pub fn x(&self) -> (r: T)
        ensures
            r == self.x,
    {
        self.x
    }

    /// The second component, by value.
    pub fn y(&self) -> (r: T)
        ensures
            r == self.y,
    {
        self.y
    }

    /// The third component, by value.
    pub fn z(&self) -> (r: T)
        ensures
            r == self.z,
    {
        self.z
    }
}

impl<T: Scalar> Vector<T> {
    /// The zero vector.
    pub open spec fn zero_spec() -> Self {
        Vector { x: T::zero_spec(), y: T::zero_spec(), z: T::zero_spec() }
    }

    /// Unit vector along the first axis.
    pub open spec fn unit_x_spec() -> Self {
        Vector { x: T::one_spec(), y: T::zero_spec(), z: T::zero_spec() }
    }

    /// Unit vector along the second axis.
    pub open spec fn unit_y_spec() -> Self {
        Vector { x: T::zero_spec(), y: T::one_spec(), z: T::zero_spec() }
    }

    /// Unit vector along the third axis.
    pub open spec fn unit_z_spec() -> Self {
        Vector { x: T::zero_spec(), y: T::zero_spec(), z: T::one_spec() }
    }

    /// Componentwise sum.
    pub open spec fn plus_spec(self, other: Self) -> Self {
        Vector {
            x: self.x.plus_spec(other.x),
            y: self.y.plus_spec(other.y),
            z: self.z.plus_spec(other.z),
        }
    }

    /// Componentwise difference.
    pub open spec fn minus_spec(self, other: Self) -> Self {
        Vector {
            x: self.x.minus_spec(other.x),
            y: self.y.minus_spec(other.y),
            z: self.z.minus_spec(other.z),
        }
    }

    /// Componentwise negation.
    pub open spec fn neg_spec(self) -> Self {
        Vector { x: self.x.neg_spec(), y: self.y.neg_spec(), z: self.z.neg_spec() }
    }

    /// Componentwise multiplication by a scalar.
    pub open spec fn scaled_spec(self, factor: T) -> Self {
        Vector {
            x: self.x.times_spec(factor),
            y: self.y.times_spec(factor),
            z: self.z.times_spec(factor),
        }
    }

    /// Componentwise division by a scalar.
    pub open spec fn divided_by_spec(self, divisor: T) -> Self {
        Vector {
            x: self.x.over_spec(divisor),
            y: self.y.over_spec(divisor),
            z: self.z.over_spec(divisor),
        }
    }

    /// Sum of the pairwise component products.
    pub open spec fn dot_spec(self, other: Self) -> T {
        self.x.times_spec(other.x).plus_spec(self.y.times_spec(other.y)).plus_spec(
            self.z.times_spec(other.z),
        )
    }

    /// The standard 3D cross product.
    pub open spec fn cross_spec(self, other: Self) -> Self {
        Vector {
            x: self.y.times_spec(other.z).minus_spec(self.z.times_spec(other.y)),
            y: self.z.times_spec(other.x).minus_spec(self.x.times_spec(other.z)),
            z: self.x.times_spec(other.y).minus_spec(self.y.times_spec(other.x)),
        }
    }

    /// Linear interpolation: `self + (other - self) * progress`.
    pub open spec fn interpolate_spec(self, other: Self, progress: T) -> Self {
        self.plus_spec(other.minus_spec(self).scaled_spec(progress))
    }

    /// Component of `self` parallel to `other`.
    pub open spec fn project_on_spec(self, other: Self) -> Self {
        other.scaled_spec(self.dot_spec(other).over_spec(other.dot_spec(other)))
    }

    /// Component of `self` orthogonal to `other`.
    pub open spec fn reject_from_spec(self, other: Self) -> Self {
        self.minus_spec(self.project_on_spec(other))
    }

    /// The zero vector.
    pub fn zero() -> (r: Self)
        ensures
            r == Self::zero_spec(),
    {
        let x = T::zero();
        let y = T::zero();
        let z = T::zero();
        Self { x, y, z }
    }

    /// Unit vector along the first axis.
    pub fn unit_x() -> (r: Self)
        ensures
            r == Self::unit_x_spec(),
    {
        let x = T::one();
        let y = T::zero();
        let z = T::zero();
        Self { x, y, z }
    }

    /// Unit vector along the second axis.
    pub fn unit_y() -> (r: Self)
        ensures
            r == Self::unit_y_spec(),
    {
        let x = T::zero();
        let y = T::one();
        let z = T::zero();
        Self { x, y, z }
    }

    /// Unit vector along the third axis.
    pub fn unit_z() -> (r: Self)
        ensures
            r == Self::unit_z_spec(),
    {
        let x = T::zero();
        let y = T::zero();
        let z = T::one();
        Self { x, y, z }
    }

    /// Componentwise sum.
    pub fn plus(self, other: Self) -> (r: Self)
        ensures
            r == self.plus_spec(other),
    {
        Vector { x: self.x.plus(other.x), y: self.y.plus(other.y), z: self.z.plus(other.z) }
    }

    /// Componentwise difference.
    pub fn minus(self, other: Self) -> (r: Self)
        ensures
            r == self.minus_spec(other),
    {
        Vector { x: self.x.minus(other.x), y: self.y.minus(other.y), z: self.z.minus(other.z) }
    }

    /// Componentwise negation.
    pub fn negated(self) -> (r: Self)
        ensures
            r == self.neg_spec(),
    {
        Vector { x: self.x.negated(), y: self.y.negated(), z: self.z.negated() }
    }

    /// Componentwise multiplication by a scalar.
    pub fn scaled(self, factor: T) -> (r: Self)
        ensures
            r == self.scaled_spec(factor),
    {
        Vector { x: self.x.times(factor), y: self.y.times(factor), z: self.z.times(factor) }
    }

    /// Componentwise division by a scalar. A degenerate divisor yields
    /// whatever the scalar model yields; the checked operations of this crate
    /// never pass one.
    pub fn divided_by(self, divisor: T) -> (r: Self)
        ensures
            r == self.divided_by_spec(divisor),
    {
        Vector { x: self.x.over(divisor), y: self.y.over(divisor), z: self.z.over(divisor) }
    }

    /// Sum of the pairwise component products.
    pub fn dot(self, other: Self) -> (r: T)
        ensures
            r == self.dot_spec(other),
    {
        self.x.times(other.x).plus(self.y.times(other.y)).plus(self.z.times(other.z))
    }

    /// The standard 3D cross product; anti-commutative, and the zero vector
    /// whenever the inputs are parallel.
    pub fn cross(self, other: Self) -> (r: Self)
        ensures
            r == self.cross_spec(other),
    {
        Vector {
            x: self.y.times(other.z).minus(self.z.times(other.y)),
            y: self.z.times(other.x).minus(self.x.times(other.z)),
            z: self.x.times(other.y).minus(self.y.times(other.x)),
        }
    }

    /// Linear interpolation between `self` and `other`; unclamped, so
    /// `progress` outside [0, 1] extrapolates.
    pub fn interpolate(self, other: Self, progress: T) -> (r: Self)
        ensures
            r == self.interpolate_spec(other, progress),
    {
        self.plus(other.minus(self).scaled(progress))
    }

    /// Component of `self` parallel to `other`.
    ///
    /// `other` must be non-zero: a zero `other` divides by a zero dot product,
    /// which yields whatever the scalar model yields for a zero divisor.
    pub fn project_on(self, other: Self) -> (r: Self)
        ensures
            r == self.project_on_spec(other),
    {
        other.scaled(self.dot(other).over(other.dot(other)))
    }

    /// Component of `self` orthogonal to `other`; the same precondition on
    /// `other` as [`Vector::project_on`].
    pub fn reject_from(self, other: Self) -> (r: Self)
        ensures
            r == self.reject_from_spec(other),
    {
        let projection = self.project_on(other);
        self.minus(projection)
    }
}

impl<T: Scalar + Sqrt<Output = T>> Vector<T> {
    /// Square root of the vector's dot product with itself.
    pub open spec fn norm_spec(self) -> T {
        self.dot_spec(self).sqrt_spec()
    }

    /// `self` divided by its norm, with no degeneracy guard.
    pub open spec fn normalized_unchecked_spec(self) -> Self {
        self.divided_by_spec(self.norm_spec())
    }

    /// `self` divided by its norm when the norm is at least the scalar
    /// model's degeneracy threshold, and nothing otherwise.
    pub open spec fn normalized_checked_spec(self) -> Option<Self> {
        if self.norm_spec().lt_spec(T::epsilon_spec()) {
            None
        } else {
            Some(self.normalized_unchecked_spec())
        }
    }

    /// Euclidean length: square root of the dot product with itself.
    pub fn norm(self) -> (r: T)
        ensures
            r == self.norm_spec(),
    {
        self.dot(self).sqrt()
    }

    /// `self` scaled to unit length, with no guard: a near-zero norm divides
    /// by a near-zero value, which the caller must have ruled out.
    pub fn normalized_unchecked(self) -> (r: Self)
        ensures
            r == self.normalized_unchecked_spec(),
    {
        let norm = self.norm();
        self.divided_by(norm)
    }

    /// `self` scaled to unit length, unless the norm falls below the scalar
    /// model's degeneracy threshold.
    ///
    /// Returns `None` exactly when the norm is below the threshold, and
    /// otherwise `self` divided componentwise by the norm.
    pub fn normalized_checked(self) -> (r: Option<Self>)
        ensures
            r == self.normalized_checked_spec(),
            r is None <==> self.norm_spec().lt_spec(T::epsilon_spec()),
            r is Some ==> r->0 == self.divided_by_spec(self.norm_spec()),
    {
        let norm = self.norm();
        if norm.less_than(T::epsilon()) {
            None
        } else {
            Some(self.divided_by(norm))
        }
    }
}

/// Normalizing the zero vector through the checked path yields nothing: its
/// norm is the square root of zero, which every scalar model places below the
/// degeneracy threshold.
pub proof fn lemma_normalized_checked_zero<T: Trig>()
    ensures
        Vector::<T>::zero_spec().normalized_checked_spec() is None,
{
    T::times_zero(T::zero_spec());
    T::plus_zero(T::zero_spec());
    T::sqrt_zero();
    T::epsilon_positive();
}

/// The cross product of the first two axis unit vectors is the third:
/// `unit_x x unit_y == unit_z` in any scalar model.
pub proof fn lemma_unit_cross<T: Scalar>()
    ensures
        Vector::<T>::unit_x_spec().cross_spec(Vector::<T>::unit_y_spec())
            == Vector::<T>::unit_z_spec(),
{
    T::times_zero(T::zero_spec());
    T::times_zero(T::one_spec());
    T::times_one(T::one_spec());
    T::minus_zero(T::zero_spec());
    T::minus_zero(T::one_spec());
}

} // verus!
