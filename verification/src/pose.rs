use vstd::prelude::*;

use crate::ops::{lemma_scalar_identities, Scalar};
use crate::quaternion::{lemma_identity_multiply_identity, lemma_identity_rotate, Quaternion};
use crate::vector::Vector;

verus! {

/// Spatial pose in 3D space.
///
/// Consists of consecutive translation and rotation in parent space: a vector
/// expressed in the pose's local frame is rotated first and translated second
/// when mapped into the parent frame.
#[derive(Clone, Copy, Debug, PartialEq, Eq, PartialOrd, Ord)]
pub struct Pose<T, R> {
    pub translation: Vector<T>,
    pub rotation: Quaternion<R>,
}

impl<T, R> Pose<T, R> {
    /// Create a new `Pose` with the given translation and rotation.
    pub fn new(translation: Vector<T>, rotation: Quaternion<R>) -> (r: Self)
        ensures
            r == (Pose { translation, rotation }),
    {
        Self { translation, rotation }
    }

    /// Get a reference to the stored translation.
    pub fn translation_ref(&self) -> (r: &Vector<T>)
        ensures
            *r == self.translation,
    {
        &self.translation
    }

    /// Get a reference to the stored rotation.
    pub fn rotation_ref(&self) -> (r: &Quaternion<R>)
        ensures
            *r == self.rotation,
    {
        &self.rotation
    }

    /// Get a mutable reference to the stored translation.
    pub fn translation_mut(&mut self) -> (r: &mut Vector<T>)
        ensures
            *r == old(self).translation,
            *final(self) == (Pose { translation: *final(r), rotation: old(self).rotation }),
    {
        &mut self.translation
    }

    /// Get a mutable reference to the stored rotation.
    pub fn rotation_mut(&mut self) -> (r: &mut Quaternion<R>)
        ensures
            *r == old(self).rotation,
            *final(self) == (Pose { translation: old(self).translation, rotation: *final(r) }),
    {
        &mut self.rotation
    }

    /// Replace the translation.
    pub fn set_translation(&mut self, translation: Vector<T>)
        ensures
            *final(self) == (Pose { translation, rotation: old(self).rotation }),
    {
        self.translation = translation;
    }

    /// Replace the rotation.
    pub fn set_rotation(&mut self, rotation: Quaternion<R>)
        ensures
            *final(self) == (Pose { translation: old(self).translation, rotation }),
    {
        self.rotation = rotation;
    }
}

impl<T: Copy, R> Pose<T, R> {
    /// Get the translation.
    pub fn translation(&self) -> (r: Vector<T>)
        ensures
            r == self.translation,
    {
        self.translation
    }
}

impl<T, R: Copy> Pose<T, R> {
    /// Get the rotation.
    pub fn rotation(&self) -> (r: Quaternion<R>)
        ensures
            r == self.rotation,
    {
        self.rotation
    }
}

impl<T: Scalar, R: Scalar> Pose<T, R> {
    /// The pose with zero translation and the identity rotation.
    pub open spec fn identity_spec() -> Self {
        Pose {
            translation: Vector::zero_spec(),
            rotation: Quaternion::identity_spec(),
        }
    }

    /// Create the pose representing no translation and no rotation.
    pub fn identity() -> (r: Self)
        ensures
            r == Self::identity_spec(),
    {
        let translation = Vector::zero();
        let rotation = Quaternion::identity();
        Self { translation, rotation }
    }
}

impl<T: Scalar> Pose<T, T> {
    /// The composition of `self` and `other`: `other`'s translation carried
    /// into `self`'s parent frame plus `self`'s translation, and the Hamilton
    /// product of the rotations.
    pub open spec fn combine_spec(self, other: Self) -> Self {
        Pose {
            translation: self.translation.plus_spec(
                self.rotation.rotate_spec(other.translation),
            ),
            rotation: self.rotation.multiply_spec(other.rotation),
        }
    }

    /// The given vector rotated by the pose's rotation, then offset by the
    /// pose's translation.
    pub open spec fn apply_to_spec(self, other: Vector<T>) -> Vector<T> {
        self.translation.plus_spec(self.rotation.rotate_spec(other))
    }

    /// The conjugate rotation, and the negated translation carried through
    /// it.
    pub open spec fn inverse_spec(self) -> Self {
        Pose {
            translation: self.rotation.inverse_spec().rotate_spec(self.translation.neg_spec()),
            rotation: self.rotation.inverse_spec(),
        }
    }

    /// Calculate the pose reached by applying `self` and then, within the
    /// frame `self` reaches, `other`: the result maps a point expressed in
    /// `other`'s local frame directly into the frame that is parent to
    /// `self`. Associative but not commutative.
    pub fn combine(self, other: Self) -> (r: Self)
        ensures
            r == self.combine_spec(other),
    {
        let translation = self.translation.plus(self.rotation.rotate(other.translation));
        let rotation = self.rotation.multiply(other.rotation);
        Self { translation, rotation }
    }

    /// Apply the transform stored in this pose to the given vector: rotate
    /// first, then translate.
    pub fn apply_to(self, other: Vector<T>) -> (r: Vector<T>)
        ensures
            r == self.apply_to_spec(other),
    {
        self.translation.plus(self.rotation.rotate(other))
    }

    /// Calculate the inverse transform: the conjugate rotation together with
    /// the negated translation carried through it. For a unit rotation,
    /// combining a pose with its inverse, in either order, yields the
    /// identity pose.
    pub fn inverse(self) -> (r: Self)
        ensures
            r == self.inverse_spec(),
    {
        let inverse_rotation = self.rotation.inverse();
        Self {
            translation: inverse_rotation.rotate(self.translation.negated()),
            rotation: inverse_rotation,
        }
    }
}

/// A pose that only translates, combined with its inverse in either order,
/// is the identity pose exactly: the pose-inverse round trip, shown where
/// the rotation is the identity and no rounding enters.
pub proof fn lemma_translation_combine_inverse<T: Scalar>(translation: Vector<T>)
    ensures
        (Pose { translation, rotation: Quaternion::<T>::identity_spec() }).combine_spec(
            (Pose { translation, rotation: Quaternion::<T>::identity_spec() }).inverse_spec(),
        ) == Pose::<T, T>::identity_spec(),
        (Pose { translation, rotation: Quaternion::<T>::identity_spec() }).inverse_spec()
            .combine_spec(
            (Pose { translation, rotation: Quaternion::<T>::identity_spec() }),
        ) == Pose::<T, T>::identity_spec(),
{
    T::neg_zero();
    T::plus_neg(translation.x);
    T::plus_neg(translation.y);
    T::plus_neg(translation.z);
    lemma_scalar_identities(T::zero_spec());
    lemma_scalar_identities(T::one_spec());
    let identity_rotation = Quaternion::<T>::identity_spec();
    assert(identity_rotation.inverse_spec() == identity_rotation);
    lemma_identity_rotate(translation.neg_spec());
    lemma_identity_rotate(translation);
    lemma_identity_multiply_identity::<T>();
}

} // verus!
