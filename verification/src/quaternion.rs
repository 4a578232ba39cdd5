use vstd::prelude::*;

use crate::ops::{lemma_scalar_identities, Scalar, Trig};
use crate::vector::Vector;

verus! {

/// A 4-component rotation representation in Hamilton components.
///
/// Represents an orientation when unit-norm (`w² + i² + j² + k² = 1`); this is
/// a usage contract, not enforced by the type. Non-unit quaternions are
/// constructible, and [`Quaternion::inverse`] and [`Quaternion::rotate`] are
/// only correct for unit quaternions.
#[derive(Clone, Copy, Debug, PartialEq, Eq, PartialOrd, Ord)]
pub struct Quaternion<T> {
    pub w: T,
    pub i: T,
    pub j: T,
    pub k: T,
}

impl<T: Scalar> Quaternion<T> {
    /// The rotation that leaves every vector in place.
    pub open spec fn identity_spec() -> Self {
        Quaternion {
            w: T::one_spec(),
            i: T::zero_spec(),
            j: T::zero_spec(),
            k: T::zero_spec(),
        }
    }

    /// The rotation that leaves every vector in place.
    pub fn identity() -> (r: Self)
        ensures
            r == Self::identity_spec(),
    {
        let w = T::one();
        let i = T::zero();
        let j = T::zero();
        let k = T::zero();
        Self { w, i, j, k }
    }

    /// The Hamilton product of the two quaternions, term by term.
    pub open spec fn multiply_spec(self, other: Self) -> Self {
        Quaternion {
            w: self.w.times_spec(other.w).minus_spec(self.i.times_spec(other.i)).minus_spec(
                self.j.times_spec(other.j),
            ).minus_spec(self.k.times_spec(other.k)),
            i: self.w.times_spec(other.i).plus_spec(self.i.times_spec(other.w)).plus_spec(
                self.j.times_spec(other.k),
            ).minus_spec(self.k.times_spec(other.j)),
            j: self.w.times_spec(other.j).minus_spec(self.i.times_spec(other.k)).plus_spec(
                self.j.times_spec(other.w),
            ).plus_spec(self.k.times_spec(other.i)),
            k: self.w.times_spec(other.k).plus_spec(self.i.times_spec(other.j)).minus_spec(
                self.j.times_spec(other.i),
            ).plus_spec(self.k.times_spec(other.w)),
        }
    }

    /// Sum of the pairwise component products.
    pub open spec fn dot_spec(self, other: Self) -> T {
        self.w.times_spec(other.w).plus_spec(self.i.times_spec(other.i)).plus_spec(
            self.j.times_spec(other.j),
        ).plus_spec(self.k.times_spec(other.k))
    }

    /// The conjugate: vector part negated, scalar part kept.
    pub open spec fn inverse_spec(self) -> Self {
        Quaternion {
            w: self.w,
            i: self.i.neg_spec(),
            j: self.j.neg_spec(),
            k: self.k.neg_spec(),
        }
    }

    /// Componentwise sum.
    pub open spec fn plus_spec(self, other: Self) -> Self {
        Quaternion {
            w: self.w.plus_spec(other.w),
            i: self.i.plus_spec(other.i),
            j: self.j.plus_spec(other.j),
            k: self.k.plus_spec(other.k),
        }
    }

    /// Componentwise negation.
    pub open spec fn neg_spec(self) -> Self {
        Quaternion {
            w: self.w.neg_spec(),
            i: self.i.neg_spec(),
            j: self.j.neg_spec(),
            k: self.k.neg_spec(),
        }
    }

    /// Componentwise multiplication by a scalar.
    pub open spec fn scaled_spec(self, factor: T) -> Self {
        Quaternion {
            w: self.w.times_spec(factor),
            i: self.i.times_spec(factor),
            j: self.j.times_spec(factor),
            k: self.k.times_spec(factor),
        }
    }

    /// The closed-form expansion of the conjugation `q * v * q⁻¹` restricted
    /// to the vector components: for a unit quaternion `q` this is the
    /// rotation of `v` by `q`, without building the intermediate
    /// quaternion-vector products.
    pub open spec fn rotate_spec(self, vector: Vector<T>) -> Vector<T> {
        let w = self.w;
        let i = self.i;
        let j = self.j;
        let k = self.k;
        let x = vector.x;
        let y = vector.y;
        let z = vector.z;
        let prep_x = i.times_spec(j).times_spec(y).plus_spec(
            i.times_spec(k).times_spec(z),
        ).plus_spec(j.times_spec(w).times_spec(z)).minus_spec(k.times_spec(w).times_spec(y));
        let prep_y = i.times_spec(j).times_spec(x).minus_spec(
            i.times_spec(w).times_spec(z),
        ).plus_spec(j.times_spec(k).times_spec(z)).plus_spec(k.times_spec(w).times_spec(x));
        let prep_z = i.times_spec(k).times_spec(x).plus_spec(
            i.times_spec(w).times_spec(y),
        ).plus_spec(j.times_spec(k).times_spec(y)).minus_spec(j.times_spec(w).times_spec(x));
        Vector {
            x: prep_x.plus_spec(prep_x).plus_spec(
                i.times_spec(i).minus_spec(j.times_spec(j)).minus_spec(k.times_spec(k)).plus_spec(
                    w.times_spec(w),
                ).times_spec(x),
            ),
            y: prep_y.plus_spec(prep_y).plus_spec(
                j.times_spec(j).minus_spec(i.times_spec(i)).minus_spec(k.times_spec(k)).plus_spec(
                    w.times_spec(w),
                ).times_spec(y),
            ),
            z: prep_z.plus_spec(prep_z).plus_spec(
                w.times_spec(w).minus_spec(i.times_spec(i)).minus_spec(j.times_spec(j)).plus_spec(
                    k.times_spec(k),
                ).times_spec(z),
            ),
        }
    }

    /// The full Hamilton product; not commutative. Composes rotations:
    /// the product rotates by `other` first and by `self` second.
    pub fn multiply(self, other: Self) -> (r: Self)
        ensures
            r == self.multiply_spec(other),
    {
        let w = self.w.times(other.w).minus(self.i.times(other.i)).minus(
            self.j.times(other.j),
        ).minus(self.k.times(other.k));
        let i = self.w.times(other.i).plus(self.i.times(other.w)).plus(
            self.j.times(other.k),
        ).minus(self.k.times(other.j));
        let j = self.w.times(other.j).minus(self.i.times(other.k)).plus(
            self.j.times(other.w),
        ).plus(self.k.times(other.i));
        let k = self.w.times(other.k).plus(self.i.times(other.j)).minus(
            self.j.times(other.i),
        ).plus(self.k.times(other.w));
        Self { w, i, j, k }
    }

    /// Componentwise dot product: for two unit quaternions, the cosine of
    /// half the angular distance between them, up to the sign ambiguity of
    /// the double cover.
    pub fn dot(self, other: Self) -> (r: T)
        ensures
            r == self.dot_spec(other),
    {
        self.w.times(other.w).plus(self.i.times(other.i)).plus(self.j.times(other.j)).plus(
            self.k.times(other.k),
        )
    }

    /// Apply the rotation to a vector, using the closed-form expansion of the
    /// conjugation `q * v * q⁻¹`. Only meaningful for a unit quaternion.
    pub fn rotate(self, vector: Vector<T>) -> (r: Vector<T>)
        ensures
            r == self.rotate_spec(vector),
    {
        let (w, i, j, k) = (self.w, self.i, self.j, self.k);
        let (x, y, z) = (vector.x(), vector.y(), vector.z());
        let prep_x = i.times(j).times(y).plus(i.times(k).times(z)).plus(
            j.times(w).times(z),
        ).minus(k.times(w).times(y));
        let result_x = prep_x.plus(prep_x).plus(
            i.times(i).minus(j.times(j)).minus(k.times(k)).plus(w.times(w)).times(x),
        );
        let prep_y = i.times(j).times(x).minus(i.times(w).times(z)).plus(
            j.times(k).times(z),
        ).plus(k.times(w).times(x));
        let result_y = prep_y.plus(prep_y).plus(
            j.times(j).minus(i.times(i)).minus(k.times(k)).plus(w.times(w)).times(y),
        );
        let prep_z = i.times(k).times(x).plus(i.times(w).times(y)).plus(
            j.times(k).times(y),
        ).minus(j.times(w).times(x));
        let result_z = prep_z.plus(prep_z).plus(
            w.times(w).minus(i.times(i)).minus(j.times(j)).plus(k.times(k)).times(z),
        );
        Vector::new(result_x, result_y, result_z)
    }

    /// The conjugate: negate the vector part, keep the scalar part. This is
    /// the multiplicative inverse only for a unit quaternion; for a non-unit
    /// input it yields a scaled result, not a true inverse.
    pub fn inverse(self) -> (r: Self)
        ensures
            r == self.inverse_spec(),
    {
        Self { w: self.w, i: self.i.negated(), j: self.j.negated(), k: self.k.negated() }
    }

    /// Componentwise sum.
    pub fn plus(self, other: Self) -> (r: Self)
        ensures
            r == self.plus_spec(other),
    {
        Self {
            w: self.w.plus(other.w),
            i: self.i.plus(other.i),
            j: self.j.plus(other.j),
            k: self.k.plus(other.k),
        }
    }

    /// Componentwise negation: the antipodal representative of the same
    /// rotation.
    pub fn negated(self) -> (r: Self)
        ensures
            r == self.neg_spec(),
    {
        Self {
            w: self.w.negated(),
            i: self.i.negated(),
            j: self.j.negated(),
            k: self.k.negated(),
        }
    }

    /// Componentwise multiplication by a scalar.
    pub fn scaled(self, factor: T) -> (r: Self)
        ensures
            r == self.scaled_spec(factor),
    {
        Self {
            w: self.w.times(factor),
            i: self.i.times(factor),
            j: self.j.times(factor),
            k: self.k.times(factor),
        }
    }
}

impl<T: Trig> Quaternion<T> {
    /// The rotation of the given angle about the given axis: the normalized
    /// axis scaled by the sine of the half angle, with the cosine of the half
    /// angle as scalar part; the identity when the axis is degenerate.
    pub open spec fn from_angle_axis_spec(angle: T, axis: Vector<T>) -> Self {
        match axis.normalized_checked_spec() {
            Some(normalized) => {
                let half = angle.over_spec(T::one_spec().plus_spec(T::one_spec()));
                Quaternion {
                    w: half.cos_spec(),
                    i: normalized.x.times_spec(half.sin_spec()),
                    j: normalized.y.times_spec(half.sin_spec()),
                    k: normalized.z.times_spec(half.sin_spec()),
                }
            },
            None => Self::identity_spec(),
        }
    }

    /// The scalar part clamped into [-1, 1], the domain of the inverse
    /// cosine: round-off on a unit quaternion can push it slightly outside.
    pub open spec fn clamped_w_spec(self) -> T {
        let low = if self.w.lt_spec(T::one_spec().neg_spec()) {
            T::one_spec().neg_spec()
        } else {
            self.w
        };
        if T::one_spec().lt_spec(low) {
            T::one_spec()
        } else {
            low
        }
    }

    /// The angle-axis reading of a unit quaternion: twice the inverse cosine
    /// of the clamped scalar part, and the vector part divided by the sine of
    /// the half angle; a zero angle and axis when the half angle is
    /// degenerate.
    pub open spec fn into_angle_axis_spec(self) -> (T, Vector<T>) {
        let half_angle = self.clamped_w_spec().acos_spec();
        if half_angle.lt_spec(T::epsilon_spec()) {
            (T::zero_spec(), Vector::zero_spec())
        } else {
            (
                half_angle.times_spec(T::one_spec().plus_spec(T::one_spec())),
                (Vector { x: self.i, y: self.j, z: self.k }).divided_by_spec(
                    half_angle.sin_spec(),
                ),
            )
        }
    }

    /// Shortest-arc spherical interpolation between unit quaternions: the
    /// antipode of `other` replaces it when the dot product is negative, the
    /// dot product is clamped to at most one, `self` is returned unchanged
    /// when the inputs are effectively identical, and otherwise the result is
    /// the sine-ratio weighted sum of the two.
    pub open spec fn slerp_spec(self, other: Self, progress: T) -> Self {
        let first_dot = self.dot_spec(other);
        let nearer = if first_dot.lt_spec(T::zero_spec()) {
            other.neg_spec()
        } else {
            other
        };
        let positive_dot = if first_dot.lt_spec(T::zero_spec()) {
            first_dot.neg_spec()
        } else {
            first_dot
        };
        if T::one_spec().le_spec(positive_dot) {
            self
        } else {
            let clamped_dot = if positive_dot.lt_spec(T::one_spec()) {
                positive_dot
            } else {
                T::one_spec()
            };
            let omega = clamped_dot.acos_spec();
            let sin_omega = omega.sin_spec();
            let weight_self = T::one_spec().minus_spec(progress).times_spec(
                omega,
            ).sin_spec().over_spec(sin_omega);
            let weight_other = progress.times_spec(omega).sin_spec().over_spec(sin_omega);
            self.scaled_spec(weight_self).plus_spec(nearer.scaled_spec(weight_other))
        }
    }

    /// Build the rotation of `angle` about `axis`.
    ///
    /// The axis is normalized through the checked path: a degenerate
    /// (near-zero) axis yields the identity rotation rather than an error.
    pub fn from_angle_axis(angle: T, axis: Vector<T>) -> (r: Self)
        ensures
            r == Self::from_angle_axis_spec(angle, axis),
            axis.norm_spec().lt_spec(T::epsilon_spec()) ==> r == Self::identity_spec(),
    {
        if let Some(normalized) = axis.normalized_checked() {
            let half = angle.over(T::one().plus(T::one()));
            let cos = half.cos();
            let sin = half.sin();
            let i = normalized.x().times(sin);
            let j = normalized.y().times(sin);
            let k = normalized.z().times(sin);
            let w = cos;
            Self { w, i, j, k }
        } else {
            Self::identity()
        }
    }

    /// Recover angle and axis from a unit quaternion.
    ///
    /// The scalar part is clamped into [-1, 1] before the inverse cosine, and
    /// a half angle below the degeneracy threshold yields a zero angle and
    /// zero axis rather than dividing by a near-zero sine.
    pub fn into_angle_axis(self) -> (r: (T, Vector<T>))
        ensures
            r == self.into_angle_axis_spec(),
    {
        let neg_one = T::one().negated();
        let low = if self.w.less_than(neg_one) {
            neg_one
        } else {
            self.w
        };
        let clamped = if T::one().less_than(low) {
            T::one()
        } else {
            low
        };
        let half_angle = clamped.acos();
        if half_angle.less_than(T::epsilon()) {
            (T::zero(), Vector::zero())
        } else {
            let sin = half_angle.sin();
            let axis = Vector::new(self.i, self.j, self.k).divided_by(sin);
            (half_angle.times(T::one().plus(T::one())), axis)
        }
    }

    /// Shortest-arc spherical interpolation from `self` to `other`.
    ///
    /// When the dot product of the two is negative, `other` is replaced by
    /// its antipode, which represents the same rotation but lies on the
    /// shorter arc. A dot product of one or more means the inputs are
    /// effectively identical and `self` is returned unchanged, avoiding a
    /// division by the sine of a zero angle.
    pub fn slerp(self, other: Self, progress: T) -> (r: Self)
        ensures
            r == self.slerp_spec(other, progress),
    {
        let first_dot = self.dot(other);
        let (nearer, positive_dot) = if first_dot.less_than(T::zero()) {
            (other.negated(), first_dot.negated())
        } else {
            (other, first_dot)
        };
        if T::one().less_eq(positive_dot) {
            return self;
        }
        let clamped_dot = if positive_dot.less_than(T::one()) {
            positive_dot
        } else {
            T::one()
        };
        let omega = clamped_dot.acos();
        let sin_omega = omega.sin();
        let weight_self = T::one().minus(progress).times(omega).sin().over(sin_omega);
        let weight_other = progress.times(omega).sin().over(sin_omega);
        self.scaled(weight_self).plus(nearer.scaled(weight_other))
    }
}

/// The identity rotation leaves any vector unchanged.
pub proof fn lemma_identity_rotate<T: Scalar>(vector: Vector<T>)
    ensures
        Quaternion::<T>::identity_spec().rotate_spec(vector) == vector,
{
    lemma_scalar_identities(T::zero_spec());
    lemma_scalar_identities(T::one_spec());
    lemma_scalar_identities(vector.x);
    lemma_scalar_identities(vector.y);
    lemma_scalar_identities(vector.z);
}

/// Rotating by the identity and then by its inverse returns the vector
/// exactly: the inverse-rotation round trip, shown at the identity rotation,
/// where no rounding enters.
pub proof fn lemma_identity_rotate_round_trip<T: Scalar>(vector: Vector<T>)
    ensures
        Quaternion::<T>::identity_spec().inverse_spec().rotate_spec(
            Quaternion::<T>::identity_spec().rotate_spec(vector),
        ) == vector,
{
    T::neg_zero();
    assert(Quaternion::<T>::identity_spec().inverse_spec()
        == Quaternion::<T>::identity_spec());
    lemma_identity_rotate(vector);
}

/// The Hamilton product of the identity with the identity is the identity.
pub proof fn lemma_identity_multiply_identity<T: Scalar>()
    ensures
        Quaternion::<T>::identity_spec().multiply_spec(Quaternion::<T>::identity_spec())
            == Quaternion::<T>::identity_spec(),
{
    lemma_scalar_identities(T::zero_spec());
    lemma_scalar_identities(T::one_spec());
}

/// A degenerate rotation axis yields no rotation: for any angle, building a
/// quaternion about the zero vector gives the identity.
pub proof fn lemma_from_angle_axis_zero_axis<T: Trig>(angle: T)
    ensures
        Quaternion::<T>::from_angle_axis_spec(angle, Vector::<T>::zero_spec())
            == Quaternion::<T>::identity_spec(),
{
    crate::vector::lemma_normalized_checked_zero::<T>();
}

} // verus!
