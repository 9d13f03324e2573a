//! The boundary to the vector maths of bevy.
//!
//! `bevy::math` hands on the types of the glam crate: `Vec3`, `Mat3` and
//! `Quat`. Scalars are carried in `bevy::utils::FloatOrd`, bevy's one-field
//! wrapper around a single-precision number. Values of all four types stay
//! opaque to the verifier, and every operation on them is a thin wrapper
//! whose body makes one call. Nothing in this file is proved.
//!
//! glam computes on `Vec3` and on single scalars with the basic arithmetic
//! operations and the square root, which round the same way on every target.
//! A wrapper around such an operation equates its result with an
//! uninterpreted function of its arguments, so that the contracts of the
//! solver can say which operations produced a point. Equality of scalars and
//! of vectors is meant up to the sign and payload of a NaN: a scalar is a
//! number or NaN, and no operation used here tells two NaNs apart.
//!
//! The product of two rotations, a rotated vector and everything
//! trigonometric may differ in the last bits between targets, or between two
//! calls. A wrapper around one of these says only that its result is a value
//! which that operation gave on those arguments: an uninterpreted relation
//! between arguments and result, from which nothing follows about two calls
//! agreeing.
use bevy::math::{EulerRot, Mat3, Quat, Vec3};
use bevy::utils::FloatOrd;
use vstd::prelude::*;

verus! {

/// `bevy::math::Vec3`, a point or direction in space.
#[verifier::external_type_specification]
#[verifier::external_body]
pub struct ExVec3(Vec3);

/// `bevy::math::Quat`, a rotation.
#[verifier::external_type_specification]
#[verifier::external_body]
pub struct ExQuat(Quat);

/// `bevy::math::Mat3`, three column vectors.
#[verifier::external_type_specification]
#[verifier::external_body]
pub struct ExMat3(Mat3);

/// `bevy::utils::FloatOrd`, the carrier of every scalar in this crate.
#[verifier::external_type_specification]
#[verifier::external_body]
pub struct ExFloatOrd(FloatOrd);

/// The vector `Vec3::new` builds from three whole numbers.
pub uninterp spec fn vec3_of(x: int, y: int, z: int) -> Vec3;

/// The component-wise sum `a + b`.
pub uninterp spec fn vec3_sum(a: Vec3, b: Vec3) -> Vec3;

/// The component-wise difference `a - b`.
pub uninterp spec fn vec3_difference(a: Vec3, b: Vec3) -> Vec3;

/// The vector `v * s`, each component multiplied by the scalar.
pub uninterp spec fn vec3_scaled(v: Vec3, s: FloatOrd) -> Vec3;

/// The vector `v / s`, each component divided by the scalar.
pub uninterp spec fn vec3_divided(v: Vec3, s: FloatOrd) -> Vec3;

/// The vector `-v`.
pub uninterp spec fn vec3_negated(v: Vec3) -> Vec3;

/// The cross product `a.cross(b)`.
pub uninterp spec fn vec3_cross(a: Vec3, b: Vec3) -> Vec3;

/// The Euclidean distance `a.distance(b)`.
pub uninterp spec fn vec3_distance(a: Vec3, b: Vec3) -> FloatOrd;

/// The result of `v.try_normalize()`: the vector scaled to length one, or
/// `None` where its length is zero or the reciprocal of its length is not finite.
pub uninterp spec fn vec3_unit(v: Vec3) -> Option<Vec3>;

/// The result of `v.any_orthonormal_vector()`.
pub uninterp spec fn vec3_orthonormal(v: Vec3) -> Vec3;

/// The matrix `Mat3::from_cols` builds from three columns.
pub uninterp spec fn mat3_of_columns(x_axis: Vec3, y_axis: Vec3, z_axis: Vec3) -> Mat3;

/// The rotation `Quat::from_mat3` reads off a matrix.
pub uninterp spec fn quat_of_matrix(m: Mat3) -> Quat;

/// The rotation `q.inverse()`.
pub uninterp spec fn quat_inverse(q: Quat) -> Quat;

/// The scalar that the whole number `n` converts to.
pub uninterp spec fn scalar_of(n: int) -> FloatOrd;

/// The rounded sum of two scalars.
pub uninterp spec fn scalar_sum(a: FloatOrd, b: FloatOrd) -> FloatOrd;

/// The rounded product of two scalars.
pub uninterp spec fn scalar_product(a: FloatOrd, b: FloatOrd) -> FloatOrd;

/// The rounded quotient of two scalars.
pub uninterp spec fn scalar_quotient(a: FloatOrd, b: FloatOrd) -> FloatOrd;

/// The scalar with its sign flipped.
pub uninterp spec fn scalar_negated(a: FloatOrd) -> FloatOrd;

/// Whether `a < b` holds of the two numbers.
pub uninterp spec fn scalar_less(a: FloatOrd, b: FloatOrd) -> bool;

/// Whether `radians` is a value that the standard `to_radians` gave for `degrees`.
pub uninterp spec fn radians_are(degrees: FloatOrd, radians: FloatOrd) -> bool;

/// Whether `product` is a value that `a * b` gave for the two rotations.
pub uninterp spec fn quat_product_is(a: Quat, b: Quat, product: Quat) -> bool;

/// Whether `rotated` is a value that `q * v` gave for the rotation and the vector.
pub uninterp spec fn quat_rotates(q: Quat, v: Vec3, rotated: Vec3) -> bool;

/// Whether `x`, `y`, `z` are angles that `q.to_euler(EulerRot::XYZ)` gave.
pub uninterp spec fn quat_angles_are(q: Quat, x: FloatOrd, y: FloatOrd, z: FloatOrd) -> bool;

/// Whether `q` is a rotation that `Quat::from_euler(EulerRot::XYZ, x, y, z)` gave.
pub uninterp spec fn angles_rotation_is(x: FloatOrd, y: FloatOrd, z: FloatOrd, q: Quat) -> bool;

/// Whether `q` is a rotation that `Quat::from_axis_angle(axis, angle)` gave.
pub uninterp spec fn axis_rotation_is(axis: Vec3, angle: FloatOrd, q: Quat) -> bool;

/// The unit vector along `v`, or the zero vector where there is none.
pub open spec fn vec3_unit_or_zero(v: Vec3) -> Vec3 {
    match vec3_unit(v) {
        Some(unit) => unit,
        None => vec3_of(0, 0, 0),
    }
}

/// The point at fraction `s` of the way from `a` to `b`.
pub open spec fn vec3_lerp(a: Vec3, b: Vec3, s: FloatOrd) -> Vec3 {
    vec3_sum(a, vec3_scaled(vec3_difference(b, a), s))
}

/// Calls `Vec3::new` on three small whole numbers, each converted without loss.
/// Trusted: the same three numbers always give the same vector.
#[verifier::external_body]
pub(crate) fn vec3_from_ints(x: i16, y: i16, z: i16) -> (r: Vec3)
    ensures
        r == vec3_of(x as int, y as int, z as int),
{
    Vec3::new(x.into(), y.into(), z.into())
}

/// Calls `Add::add` of `Vec3`, which adds component by component.
/// Trusted: the result is a function of the two vectors.
#[verifier::external_body]
pub(crate) fn plus(a: Vec3, b: Vec3) -> (r: Vec3)
    ensures
        r == vec3_sum(a, b),
{
    a + b
}

/// Calls `Sub::sub` of `Vec3`, which subtracts component by component.
/// Trusted: the result is a function of the two vectors.
#[verifier::external_body]
pub(crate) fn minus(a: Vec3, b: Vec3) -> (r: Vec3)
    ensures
        r == vec3_difference(a, b),
{
    a - b
}

/// Calls `Vec3`'s multiplication by a scalar, each component times the scalar.
/// Trusted: the result is a function of the vector and the scalar.
#[verifier::external_body]
pub(crate) fn scale(v: Vec3, s: FloatOrd) -> (r: Vec3)
    ensures
        r == vec3_scaled(v, s),
{
    v * s.0
}

/// Calls `Vec3`'s division by a scalar, each component over the scalar.
/// Division by zero does not panic; it yields infinities or NaN.
/// Trusted: the result is a function of the vector and the scalar.
#[verifier::external_body]
pub(crate) fn divide(v: Vec3, s: FloatOrd) -> (r: Vec3)
    ensures
        r == vec3_divided(v, s),
{
    v / s.0
}

/// Calls `Neg::neg` of `Vec3`.
/// Trusted: the result is a function of the vector.
#[verifier::external_body]
pub(crate) fn negate(v: Vec3) -> (r: Vec3)
    ensures
        r == vec3_negated(v),
{
    -v
}

/// Calls `Vec3::cross`.
/// Trusted: the result is a function of the two vectors.
#[verifier::external_body]
pub(crate) fn cross(a: Vec3, b: Vec3) -> (r: Vec3)
    ensures
        r == vec3_cross(a, b),
{
    a.cross(b)
}

/// Calls `Vec3::distance`, the length of `a - b`.
/// Trusted: the result is a function of the two points.
#[verifier::external_body]
pub(crate) fn distance(a: Vec3, b: Vec3) -> (r: FloatOrd)
    ensures
        r == vec3_distance(a, b),
{
    FloatOrd(a.distance(b))
}

/// Calls `Vec3::normalize_or_zero`, which glam computes as `try_normalize`
/// does, with the zero vector in place of `None`.
/// Trusted: the result is the unit vector where there is one, else zero.
#[verifier::external_body]
pub(crate) fn normalize_or_zero(v: Vec3) -> (r: Vec3)
    ensures
        r == match vec3_unit(v) {
            Some(unit) => unit,
            None => vec3_of(0, 0, 0),
        },
{
    v.normalize_or_zero()
}

/// Calls `Vec3::try_normalize`.
/// Trusted: the result is a function of the vector.
#[verifier::external_body]
pub(crate) fn try_normalize(v: Vec3) -> (r: Option<Vec3>)
    ensures
        r == vec3_unit(v),
{
    v.try_normalize()
}

/// Calls `Vec3::lerp`, which glam computes as `a + (b - a) * s`.
/// Trusted: the result is that sum.
#[verifier::external_body]
pub(crate) fn lerp(a: Vec3, b: Vec3, s: FloatOrd) -> (r: Vec3)
    ensures
        r == vec3_sum(a, vec3_scaled(vec3_difference(b, a), s)),
{
    a.lerp(b, s.0)
}

/// Calls `Vec3::any_orthonormal_vector`. glam checks that the argument is
/// normalized only under its `glam-assert` features, which this crate leaves
/// off, so the call returns for every vector.
/// Trusted: the result is a function of the vector.
#[verifier::external_body]
pub(crate) fn any_orthonormal_vector(v: Vec3) -> (r: Vec3)
    ensures
        r == vec3_orthonormal(v),
{
    v.any_orthonormal_vector()
}

/// Calls `Mat3::from_cols`, which stores the three columns as given.
/// Trusted: the result is a function of the three columns.
#[verifier::external_body]
pub(crate) fn matrix_from_columns(x_axis: Vec3, y_axis: Vec3, z_axis: Vec3) -> (r: Mat3)
    ensures
        r == mat3_of_columns(x_axis, y_axis, z_axis),
{
    Mat3::from_cols(x_axis, y_axis, z_axis)
}

/// Calls `Quat::from_mat3`, which glam computes with the same scalar
/// arithmetic on every target.
/// Trusted: the result is a function of the matrix.
#[verifier::external_body]
pub(crate) fn rotation_from_matrix(m: &Mat3) -> (r: Quat)
    ensures
        r == quat_of_matrix(*m),
{
    Quat::from_mat3(m)
}

/// Calls `Quat::inverse`, the conjugate: three sign flips. glam checks that
/// the argument is normalized only under its `glam-assert` features.
/// Trusted: the result is a function of the rotation.
#[verifier::external_body]
pub(crate) fn invert(q: Quat) -> (r: Quat)
    ensures
        r == quat_inverse(q),
{
    q.inverse()
}

/// Calls `Mul<Quat>::mul` of `Quat`. glam computes the product with vector
/// instructions on some targets and with plain arithmetic on others, so its
/// last bits are not fixed by the arguments.
/// Trusted: only that the result is a product of these two rotations.
#[verifier::external_body]
pub(crate) fn compose(a: Quat, b: Quat) -> (r: Quat)
    ensures
        quat_product_is(a, b, r),
{
    a * b
}

/// Calls `Mul<Vec3>::mul` of `Quat`, which rotates the vector. As with the
/// product of two rotations, its last bits are not fixed by the arguments.
/// Trusted: only that the result is this vector as rotated by this rotation.
#[verifier::external_body]
pub(crate) fn rotate(q: Quat, v: Vec3) -> (r: Vec3)
    ensures
        quat_rotates(q, v, r),
{
    q * v
}

/// The three angles of a rotation, in the order X, Y, Z.
pub struct EulerAngles {
    pub x: FloatOrd,
    pub y: FloatOrd,
    pub z: FloatOrd,
}

/// Calls `Quat::to_euler` with `EulerRot::XYZ`. The angles come out of
/// inverse trigonometric functions whose precision the standard library
/// leaves open.
/// Trusted: only that the result holds angles of this rotation.
#[verifier::external_body]
pub(crate) fn euler_angles(q: Quat) -> (r: EulerAngles)
    ensures
        quat_angles_are(q, r.x, r.y, r.z),
{
    let (x, y, z) = q.to_euler(EulerRot::XYZ);
    EulerAngles { x: FloatOrd(x), y: FloatOrd(y), z: FloatOrd(z) }
}

/// Calls `Quat::from_euler` with `EulerRot::XYZ`. The rotation comes out of
/// sines and cosines whose precision the standard library leaves open.
/// Trusted: only that the result is a rotation made from these angles.
#[verifier::external_body]
pub(crate) fn rotation_from_euler(x: FloatOrd, y: FloatOrd, z: FloatOrd) -> (r: Quat)
    ensures
        angles_rotation_is(x, y, z, r),
{
    Quat::from_euler(EulerRot::XYZ, x.0, y.0, z.0)
}

/// Calls `Quat::from_axis_angle`, which takes a sine and a cosine of half the
/// angle. glam checks that the axis is normalized only under its
/// `glam-assert` features.
/// Trusted: only that the result is a rotation made from this axis and angle.
#[verifier::external_body]
pub(crate) fn rotation_about_axis(axis: Vec3, angle: FloatOrd) -> (r: Quat)
    ensures
        axis_rotation_is(axis, angle, r),
{
    Quat::from_axis_angle(axis, angle.0)
}

/// Wraps a small whole number, converted without loss, in `FloatOrd`.
/// Trusted: the same number always gives the same scalar.
#[verifier::external_body]
pub(crate) fn scalar_from_int(n: i16) -> (r: FloatOrd)
    ensures
        r == scalar_of(n as int),
{
    FloatOrd(n.into())
}

/// Adds the two wrapped numbers with the standard `+`.
/// Trusted: the rounded sum is a function of the two numbers.
#[verifier::external_body]
pub(crate) fn scalar_add(a: FloatOrd, b: FloatOrd) -> (r: FloatOrd)
    ensures
        r == scalar_sum(a, b),
{
    FloatOrd(a.0 + b.0)
}

/// Multiplies the two wrapped numbers with the standard `*`.
/// Trusted: the rounded product is a function of the two numbers.
#[verifier::external_body]
pub(crate) fn scalar_times(a: FloatOrd, b: FloatOrd) -> (r: FloatOrd)
    ensures
        r == scalar_product(a, b),
{
    FloatOrd(a.0 * b.0)
}

/// Divides the first wrapped number by the second with the standard `/`,
/// which does not panic on zero.
/// Trusted: the rounded quotient is a function of the two numbers.
#[verifier::external_body]
pub(crate) fn scalar_over(a: FloatOrd, b: FloatOrd) -> (r: FloatOrd)
    ensures
        r == scalar_quotient(a, b),
{
    FloatOrd(a.0 / b.0)
}

/// Calls `Neg::neg` of `FloatOrd`, which flips the sign of the wrapped number.
/// Trusted: the result is a function of the number.
#[verifier::external_body]
pub(crate) fn scalar_negate(a: FloatOrd) -> (r: FloatOrd)
    ensures
        r == scalar_negated(a),
{
    -a
}

/// Compares the two wrapped numbers with the standard `<`, which is false
/// whenever either is NaN.
/// Trusted: the answer is a function of the two numbers.
#[verifier::external_body]
pub(crate) fn scalar_is_less(a: FloatOrd, b: FloatOrd) -> (r: bool)
    ensures
        r == scalar_less(a, b),
{
    a.0 < b.0
}

/// Calls the standard `to_radians` on the wrapped number. The standard
/// library leaves the precision of the conversion open.
/// Trusted: only that the result is this angle in radians.
#[verifier::external_body]
pub(crate) fn scalar_to_radians(degrees: FloatOrd) -> (r: FloatOrd)
    ensures
        radians_are(degrees, r),
{
    FloatOrd(degrees.0.to_radians())
}

} // verus!
