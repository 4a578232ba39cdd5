//! Spatial representation based on vector-quaternion pairs.
//!
//! The scalar type is supplied by the caller through the numeric contracts in
//! [`ops`]: any type with arithmetic, comparison, and (where needed)
//! square-root and trigonometric operations can serve as the component type of
//! a [`vector::Vector`], [`quaternion::Quaternion`], or [`pose::Pose`].

/// Numeric contracts required of scalar types.
pub mod ops;
/// Spatial pose, vector-quaternion pair.
pub mod pose;
/// Spatial rotation.
pub mod quaternion;
/// Spatial translation.
pub mod vector;
