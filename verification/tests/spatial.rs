use std::f64::consts::{FRAC_PI_2, FRAC_PI_4, PI};

use spatial::ops::{Scalar, Sqrt, Trig};
use spatial::pose::Pose;
use spatial::quaternion::Quaternion;
use spatial::vector::Vector;

/// Double-precision scalar model for the numeric contracts.
#[derive(Clone, Copy, Debug, PartialEq, PartialOrd)]
struct F64(f64);

// The `..._spec` and law members below are ghost under verification; outside
// of it they are ordinary trait items, implemented here as plain mirrors of
// the runtime operations and as empty law witnesses.
impl Scalar for F64 {
    fn zero_spec() -> F64 {
        F64(0.0)
    }
    fn one_spec() -> F64 {
        F64(1.0)
    }
    fn epsilon_spec() -> F64 {
        F64(f64::EPSILON)
    }
    fn plus_spec(self, other: F64) -> F64 {
        F64(self.0 + other.0)
    }
    fn minus_spec(self, other: F64) -> F64 {
        F64(self.0 - other.0)
    }
    fn times_spec(self, other: F64) -> F64 {
        F64(self.0 * other.0)
    }
    fn over_spec(self, other: F64) -> F64 {
        F64(self.0 / other.0)
    }
    fn neg_spec(self) -> F64 {
        F64(-self.0)
    }
    fn lt_spec(self, other: F64) -> bool {
        self.0 < other.0
    }
    fn le_spec(self, other: F64) -> bool {
        self.0 <= other.0
    }
    fn times_zero(_: F64) {}
    fn times_one(_: F64) {}
    fn plus_zero(_: F64) {}
    fn minus_zero(_: F64) {}
    fn neg_zero() {}
    fn plus_neg(_: F64) {}
    fn epsilon_positive() {}
    fn zero() -> F64 {
        F64(0.0)
    }
    fn one() -> F64 {
        F64(1.0)
    }
    fn epsilon() -> F64 {
        F64(f64::EPSILON)
    }
    fn plus(self, other: F64) -> F64 {
        F64(self.0 + other.0)
    }
    fn minus(self, other: F64) -> F64 {
        F64(self.0 - other.0)
    }
    fn times(self, other: F64) -> F64 {
        F64(self.0 * other.0)
    }
    fn over(self, other: F64) -> F64 {
        F64(self.0 / other.0)
    }
    fn negated(self) -> F64 {
        F64(-self.0)
    }
    fn less_than(self, other: F64) -> bool {
        self.0 < other.0
    }
    fn less_eq(self, other: F64) -> bool {
        self.0 <= other.0
    }
}

impl Sqrt for F64 {
    type Output = F64;
    fn sqrt_spec(self) -> F64 {
        F64(self.0.sqrt())
    }
    fn sqrt(self) -> F64 {
        F64(self.0.sqrt())
    }
}

impl Trig for F64 {
    fn sin_spec(self) -> F64 {
        F64(self.0.sin())
    }
    fn cos_spec(self) -> F64 {
        F64(self.0.cos())
    }
    fn acos_spec(self) -> F64 {
        F64(self.0.acos())
    }
    fn sqrt_zero() {}
    fn sin(self) -> F64 {
        F64(self.0.sin())
    }
    fn cos(self) -> F64 {
        F64(self.0.cos())
    }
    fn acos(self) -> F64 {
        F64(self.0.acos())
    }
}

fn v(x: f64, y: f64, z: f64) -> Vector<F64> {
    Vector::new(F64(x), F64(y), F64(z))
}

fn q(w: f64, i: f64, j: f64, k: f64) -> Quaternion<F64> {
    Quaternion { w: F64(w), i: F64(i), j: F64(j), k: F64(k) }
}

fn vector_approx(a: Vector<F64>, b: Vector<F64>, tolerance: f64) -> bool {
    (a.x().0 - b.x().0).abs() < tolerance
        && (a.y().0 - b.y().0).abs() < tolerance
        && (a.z().0 - b.z().0).abs() < tolerance
}

#[test]
fn no_recursion_during_sqrt() {
    Sqrt::sqrt(F64(4.0));
}

#[test]
fn normalized_checked_of_nonzero_is_unit() {
    let u = v(3.0, 4.0, 0.0).normalized_checked().unwrap();
    assert!((u.norm().0 - 1.0).abs() < 1e-12);
    let u = v(-0.3, 0.04, 17.5).normalized_checked().unwrap();
    assert!((u.norm().0 - 1.0).abs() < 1e-12);
}

#[test]
fn normalized_checked_of_zero_is_none() {
    assert_eq!(Vector::<F64>::zero().normalized_checked(), None);
}

#[test]
fn normalized_unchecked_matches_checked() {
    let a = v(1.0, -2.0, 2.0);
    assert_eq!(a.normalized_unchecked(), a.normalized_checked().unwrap());
}

#[test]
fn rotate_then_rotate_by_inverse_returns_input() {
    let rotation = Quaternion::from_angle_axis(F64(0.7), v(1.0, 2.0, 3.0));
    let point = v(0.3, -1.0, 2.0);
    let round_trip = rotation.inverse().rotate(rotation.rotate(point));
    assert!(vector_approx(round_trip, point, 1e-12));
}

#[test]
fn pose_combined_with_inverse_is_identity() {
    let pose = Pose::new(
        v(1.0, 2.0, 3.0),
        Quaternion::from_angle_axis(F64(FRAC_PI_4), Vector::unit_x()),
    );
    let forward = pose.combine(pose.inverse());
    assert!(forward.translation().norm().0 < 1e-3);
    assert!(forward.rotation().dot(Quaternion::identity()).0 > 1.0 - 1e-3);
    let backward = pose.inverse().combine(pose);
    assert!(backward.translation().norm().0 < 1e-3);
    assert!(backward.rotation().dot(Quaternion::identity()).0 > 1.0 - 1e-3);
}

#[test]
fn cross_of_unit_x_and_unit_y_is_unit_z() {
    assert_eq!(
        Vector::<F64>::unit_x().cross(Vector::unit_y()),
        Vector::<F64>::unit_z(),
    );
}

#[test]
fn slerp_endpoints() {
    let a = Quaternion::from_angle_axis(F64(0.3), v(1.0, 0.0, 0.0));
    let b = Quaternion::from_angle_axis(F64(1.2), v(0.0, 1.0, 1.0));
    assert_eq!(a.slerp(b, F64(0.0)), a);
    assert!(a.slerp(b, F64(1.0)).dot(b).0 > 1.0 - 1e-3);
}

#[test]
fn slerp_of_identical_rotations_returns_self() {
    let a = Quaternion::from_angle_axis(F64(0.9), v(0.0, 0.0, 1.0));
    assert_eq!(a.slerp(a, F64(0.5)), a);
}

#[test]
fn slerp_takes_shorter_arc() {
    let a = Quaternion::from_angle_axis(F64(0.4), v(0.0, 0.0, 1.0));
    let b = Quaternion::from_angle_axis(F64(0.8), v(0.0, 0.0, 1.0));
    let halfway = a.slerp(b.negated(), F64(0.5));
    let expected = Quaternion::from_angle_axis(F64(0.6), v(0.0, 0.0, 1.0));
    assert!(halfway.dot(expected).0.abs() > 1.0 - 1e-9);
}

#[test]
fn combine_chains_frames() {
    let pose1 = Pose::new(
        v(0.0, 0.0, 2.0),
        Quaternion::from_angle_axis(F64(FRAC_PI_2), Vector::unit_z()),
    );
    let pose2 = Pose::new(
        v(1.0, 0.0, 0.0),
        Quaternion::from_angle_axis(F64(FRAC_PI_4), Vector::unit_x()),
    );
    let result = pose1.combine(pose2);
    assert!(vector_approx(result.translation(), v(0.0, 1.0, 2.0), 1e-3));
    let expected_rotation = Quaternion::from_angle_axis(F64(FRAC_PI_2), Vector::unit_z())
        .multiply(Quaternion::from_angle_axis(F64(FRAC_PI_4), Vector::unit_x()));
    assert!(result.rotation().dot(expected_rotation).0 > 1.0 - 1e-3);
}

#[test]
fn apply_to_rotates_then_translates() {
    let pose = Pose::new(
        v(1.0, 2.0, 3.0),
        Quaternion::from_angle_axis(F64(FRAC_PI_2), Vector::unit_z()),
    );
    let result = pose.apply_to(Vector::unit_x());
    assert!(vector_approx(result, v(1.0, 3.0, 3.0), 1e-3));
}

#[test]
fn from_angle_axis_of_zero_axis_is_identity() {
    for angle in [0.0, 0.4, -2.0, PI, 1000.0] {
        assert_eq!(
            Quaternion::from_angle_axis(F64(angle), Vector::zero()),
            Quaternion::identity(),
        );
    }
}

#[test]
fn from_angle_axis_normalizes_the_axis() {
    let from_long_axis = Quaternion::from_angle_axis(F64(0.8), v(0.0, 0.0, 9.5));
    let from_unit_axis = Quaternion::from_angle_axis(F64(0.8), Vector::unit_z());
    assert!((from_long_axis.dot(from_unit_axis).0 - 1.0).abs() < 1e-12);
}

#[test]
fn into_angle_axis_recovers_angle_and_axis() {
    let (angle, axis) = Quaternion::from_angle_axis(F64(0.9), Vector::unit_z()).into_angle_axis();
    assert!((angle.0 - 0.9).abs() < 1e-12);
    assert!(vector_approx(axis, v(0.0, 0.0, 1.0), 1e-12));
}

#[test]
fn into_angle_axis_of_identity_is_zero() {
    let (angle, axis) = Quaternion::<F64>::identity().into_angle_axis();
    assert_eq!(angle, F64(0.0));
    assert_eq!(axis, Vector::zero());
}

#[test]
fn into_angle_axis_clamps_scalar_part() {
    let (angle, _) = q(1.0 + 1e-12, 0.0, 0.0, 0.0).into_angle_axis();
    assert_eq!(angle, F64(0.0));
}

#[test]
fn dot_is_sum_of_component_products() {
    assert_eq!(v(1.0, 2.0, 3.0).dot(v(4.0, 5.0, 6.0)), F64(32.0));
}

#[test]
fn cross_has_exact_components() {
    assert_eq!(v(1.0, 2.0, 3.0).cross(v(4.0, 5.0, 6.0)), v(-3.0, 6.0, -3.0));
}

#[test]
fn cross_of_parallel_vectors_is_zero() {
    assert_eq!(v(1.0, 2.0, 3.0).cross(v(2.0, 4.0, 6.0)), Vector::zero());
}

#[test]
fn norm_of_three_four_zero_is_five() {
    assert_eq!(v(3.0, 4.0, 0.0).norm(), F64(5.0));
}

#[test]
fn vector_arithmetic_is_componentwise() {
    assert_eq!(v(1.0, 2.0, 3.0).plus(v(10.0, 20.0, 30.0)), v(11.0, 22.0, 33.0));
    assert_eq!(v(11.0, 22.0, 33.0).minus(v(1.0, 2.0, 3.0)), v(10.0, 20.0, 30.0));
    assert_eq!(v(1.0, -2.0, 3.0).negated(), v(-1.0, 2.0, -3.0));
    assert_eq!(v(1.0, 2.0, 3.0).scaled(F64(2.0)), v(2.0, 4.0, 6.0));
    assert_eq!(v(2.0, 4.0, 6.0).divided_by(F64(2.0)), v(1.0, 2.0, 3.0));
}

#[test]
fn interpolate_is_linear_and_unclamped() {
    let a = v(0.0, 0.0, 0.0);
    let b = v(2.0, 4.0, 6.0);
    assert_eq!(a.interpolate(b, F64(0.5)), v(1.0, 2.0, 3.0));
    assert_eq!(a.interpolate(b, F64(2.0)), v(4.0, 8.0, 12.0));
}

#[test]
fn project_and_reject_decompose() {
    let a = v(3.0, 4.0, 0.0);
    let axis = v(1.0, 0.0, 0.0);
    assert_eq!(a.project_on(axis), v(3.0, 0.0, 0.0));
    assert_eq!(a.reject_from(axis), v(0.0, 4.0, 0.0));
}

#[test]
fn vector_map_applies_to_each_component() {
    let doubled = v(1.0, 2.0, 3.0).map(|component: F64| F64(component.0 * 2.0));
    assert_eq!(doubled, v(2.0, 4.0, 6.0));
}

#[test]
fn vector_accessors_read_and_write() {
    let mut a = v(1.0, 2.0, 3.0);
    assert_eq!((*a.x_ref(), *a.y_ref(), *a.z_ref()), (F64(1.0), F64(2.0), F64(3.0)));
    assert_eq!((a.x(), a.y(), a.z()), (F64(1.0), F64(2.0), F64(3.0)));
    a.set_x(F64(10.0));
    a.set_y(F64(20.0));
    a.set_z(F64(30.0));
    assert_eq!(a, v(10.0, 20.0, 30.0));
    *a.x_mut() = F64(-1.0);
    *a.y_mut() = F64(-2.0);
    *a.z_mut() = F64(-3.0);
    assert_eq!(a, v(-1.0, -2.0, -3.0));
}

#[test]
fn quaternion_multiply_follows_hamilton_rules() {
    let i = q(0.0, 1.0, 0.0, 0.0);
    let j = q(0.0, 0.0, 1.0, 0.0);
    let k = q(0.0, 0.0, 0.0, 1.0);
    assert_eq!(i.multiply(j), k);
    assert_eq!(j.multiply(i), k.negated());
    assert_eq!(i.multiply(i), q(-1.0, 0.0, 0.0, 0.0));
    let any = q(0.5, -1.5, 2.0, 0.25);
    assert_eq!(Quaternion::identity().multiply(any), any);
    assert_eq!(any.multiply(Quaternion::identity()), any);
}

#[test]
fn quaternion_dot_is_componentwise() {
    assert_eq!(q(1.0, 2.0, 3.0, 4.0).dot(q(5.0, 6.0, 7.0, 8.0)), F64(70.0));
}

#[test]
fn quaternion_inverse_conjugates() {
    assert_eq!(q(1.0, 2.0, 3.0, 4.0).inverse(), q(1.0, -2.0, -3.0, -4.0));
}

#[test]
fn rotate_quarter_turn_about_z_sends_x_to_y() {
    let rotation = Quaternion::from_angle_axis(F64(FRAC_PI_2), Vector::unit_z());
    assert!(vector_approx(rotation.rotate(Vector::unit_x()), v(0.0, 1.0, 0.0), 1e-12));
}

#[test]
fn quaternion_componentwise_operations() {
    assert_eq!(
        q(1.0, 2.0, 3.0, 4.0).plus(q(10.0, 20.0, 30.0, 40.0)),
        q(11.0, 22.0, 33.0, 44.0),
    );
    assert_eq!(q(1.0, -2.0, 3.0, -4.0).negated(), q(-1.0, 2.0, -3.0, 4.0));
    assert_eq!(q(1.0, 2.0, 3.0, 4.0).scaled(F64(0.5)), q(0.5, 1.0, 1.5, 2.0));
}

#[test]
fn pose_accessors_read_and_write() {
    let mut pose = Pose::new(v(1.0, 2.0, 3.0), Quaternion::<F64>::identity());
    assert_eq!(*pose.translation_ref(), v(1.0, 2.0, 3.0));
    assert_eq!(*pose.rotation_ref(), Quaternion::identity());
    assert_eq!(pose.translation(), v(1.0, 2.0, 3.0));
    assert_eq!(pose.rotation(), Quaternion::identity());
    pose.set_translation(v(4.0, 5.0, 6.0));
    pose.set_rotation(q(0.0, 1.0, 0.0, 0.0));
    assert_eq!(pose.translation(), v(4.0, 5.0, 6.0));
    assert_eq!(pose.rotation(), q(0.0, 1.0, 0.0, 0.0));
    *pose.translation_mut() = v(7.0, 8.0, 9.0);
    *pose.rotation_mut() = q(0.0, 0.0, 1.0, 0.0);
    assert_eq!(pose.translation(), v(7.0, 8.0, 9.0));
    assert_eq!(pose.rotation(), q(0.0, 0.0, 1.0, 0.0));
}

#[test]
fn identity_rotation_round_trip_is_exact() {
    let identity = Quaternion::<F64>::identity();
    let point = v(0.3, -1.7, 2.5);
    assert_eq!(identity.inverse().rotate(identity.rotate(point)), point);
}

#[test]
fn translation_only_pose_combined_with_inverse_is_exactly_identity() {
    let pose = Pose::new(v(1.5, -2.25, 3.0), Quaternion::<F64>::identity());
    assert_eq!(pose.combine(pose.inverse()), Pose::identity());
    assert_eq!(pose.inverse().combine(pose), Pose::identity());
}

#[test]
fn pose_identity_is_neutral_for_combine() {
    let pose = Pose::new(
        v(1.0, 2.0, 3.0),
        Quaternion::from_angle_axis(F64(0.3), Vector::unit_y()),
    );
    let left = Pose::identity().combine(pose);
    assert!(vector_approx(left.translation(), pose.translation(), 1e-12));
    assert!((left.rotation().dot(pose.rotation()).0 - 1.0).abs() < 1e-12);
    let right = pose.combine(Pose::identity());
    assert!(vector_approx(right.translation(), pose.translation(), 1e-12));
    assert!((right.rotation().dot(pose.rotation()).0 - 1.0).abs() < 1e-12);
}

#[test]
fn pose_identity_applies_as_no_op() {
    let point = v(0.1, -0.2, 0.3);
    let mapped = Pose::<F64, F64>::identity().apply_to(point);
    assert!(vector_approx(mapped, point, 1e-12));
}
