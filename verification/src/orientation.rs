//! The orientation pass that keeps the middle joint of a leg bending to the
//! expected side, and the look-at rotations it is built on.
use crate::chain::IkChain;
use crate::math::{
    angles_rotation_is, quat_angles_are, quat_inverse, quat_product_is, quat_rotates, vec3_scaled,
    any_orthonormal_vector, compose, cross, euler_angles, invert, mat3_of_columns,
    matrix_from_columns, minus, negate, plus, quat_of_matrix, rotate, rotation_from_euler,
    rotation_from_matrix, scalar_add, scalar_from_int, scalar_is_less, scalar_less,
    scalar_negate, scalar_negated, scalar_of, scalar_over, scalar_quotient, scalar_sum, scale,
    try_normalize, vec3_cross, vec3_difference, vec3_from_ints, vec3_negated, vec3_of,
    vec3_orthonormal, vec3_sum, vec3_unit, EulerAngles,
};
use bevy::math::{Quat, Vec3};
use bevy::utils::FloatOrd;
use vstd::prelude::*;

verus! {

/// The world's up axis, `(0, 1, 0)`.
pub open spec fn up_axis() -> Vec3 {
    vec3_of(0, 1, 0)
}

/// The axis a leg points along in its own frame, `(0, 0, -1)`.
pub open spec fn forward_axis() -> Vec3 {
    vec3_of(0, 0, -1)
}

/// The smallest bend that the middle joint is allowed, in hundredths of a radian.
pub const BEND_EPSILON_HUNDREDTHS: i16 = 1;

/// The smallest bend as a scalar: one hundredth of a radian.
pub open spec fn bend_epsilon() -> FloatOrd {
    scalar_quotient(scalar_of(BEND_EPSILON_HUNDREDTHS as int), scalar_of(100))
}

/// The backward axis of a frame that faces along `direction`: the negated
/// unit direction, with the forward axis standing in for a direction that
/// has none.
pub open spec fn back_axis(direction: Vec3) -> Vec3 {
    vec3_negated(
        match vec3_unit(direction) {
            Some(unit) => unit,
            None => forward_axis(),
        },
    )
}

/// The unit vector along `up`, with the world's up axis standing in for a
/// vector that has none.
pub open spec fn unit_up(up: Vec3) -> Vec3 {
    match vec3_unit(up) {
        Some(unit) => unit,
        None => up_axis(),
    }
}

/// The right axis of a frame with the given unit up and backward axes: their
/// unit cross product, or any vector orthogonal to `up` where the two are parallel.
pub open spec fn right_axis(up: Vec3, back: Vec3) -> Vec3 {
    match vec3_unit(vec3_cross(up, back)) {
        Some(unit) => unit,
        None => vec3_orthonormal(up),
    }
}

/// The rotation whose frame faces along `direction` with `up` as near to
/// upward as that allows.
pub open spec fn look_rotation(direction: Vec3, up: Vec3) -> Quat {
    let back = back_axis(direction);
    let right = right_axis(unit_up(up), back);
    quat_of_matrix(mat3_of_columns(right, vec3_cross(back, right), back))
}

/// The correction to the rotation about the X axis: a bend smaller than the
/// epsilon is raised to exactly the epsilon, any other bend is left alone.
pub open spec fn bend_correction_of(angle: FloatOrd) -> FloatOrd {
    if scalar_less(angle, bend_epsilon()) {
        scalar_sum(scalar_negated(angle), bend_epsilon())
    } else {
        scalar_of(0)
    }
}

/// Whether `offset` can be where the orientation pass puts the middle joint,
/// seen from the first joint: the joint's rotation relative to the leg's is
/// taken apart into angles, the angles are corrected, and the corrected
/// rotation is applied to a segment of length `rest` laid along the forward
/// axis. `leg` and `joint` are the two look rotations.
pub open spec fn corrected_offset(leg: Quat, joint: Quat, rest: FloatOrd, offset: Vec3) -> bool {
    exists|delta: Quat, x: FloatOrd, y: FloatOrd, z: FloatOrd, adjustment: Quat, adjusted: Quat|
        {
            &&& quat_product_is(quat_inverse(leg), joint, delta)
            &&& quat_angles_are(delta, x, y, z)
            &&& angles_rotation_is(bend_correction_of(x), scalar_negated(y), scalar_of(0), adjustment)
            &&& quat_product_is(joint, adjustment, adjusted)
            &&& quat_rotates(adjusted, vec3_scaled(forward_axis(), rest), offset)
        }
}

/// Whether `after` can be what the orientation pass makes of the joints
/// `before`: the leg's rotation looks from the first joint to the last, the
/// joint's rotation from the first joint to joint 1, joint 1 is put at the
/// first joint plus a corrected offset of the first segment's rest length,
/// and no other joint moves.
pub open spec fn oriented(before: Seq<Vec3>, rests: Seq<FloatOrd>, after: Seq<Vec3>) -> bool {
    let first = before[0];
    let leg = look_rotation(vec3_difference(before[before.len() - 1], first), up_axis());
    let joint = look_rotation(vec3_difference(before[1], first), up_axis());
    exists|offset: Vec3|
        {
            &&& #[trigger] corrected_offset(leg, joint, rests[0], offset)
            &&& after == before.update(1, vec3_sum(first, offset))
        }
}

/// The rotation that faces along `direction`. A degenerate direction or up
/// vector is replaced by a default axis, so every input has a rotation.
pub fn rotation_towards(direction: Vec3, up: Vec3) -> (rotation: Quat)
    ensures
        rotation == look_rotation(direction, up),
{
    let back = negate(
        match try_normalize(direction) {
            Some(unit) => unit,
            None => vec3_from_ints(0, 0, -1),
        },
    );
    let up = match try_normalize(up) {
        Some(unit) => unit,
        None => vec3_from_ints(0, 1, 0),
    };
    let right = match try_normalize(cross(up, back)) {
        Some(unit) => unit,
        None => any_orthonormal_vector(up),
    };
    let up = cross(back, right);
    rotation_from_matrix(&matrix_from_columns(right, up, back))
}

/// The rotation that looks from `start` toward `target`.
pub fn rotation_looking_at(start: Vec3, target: Vec3, up: Vec3) -> (rotation: Quat)
    ensures
        rotation == look_rotation(vec3_difference(target, start), up),
{
    rotation_towards(minus(target, start), up)
}

/// The angles by which the joint's rotation is corrected, given the angles
/// of the joint relative to the leg: the bend about X is raised to the
/// epsilon where it falls short, the swing about Y is undone, and Z is left.
pub fn bend_correction(relative: &EulerAngles) -> (correction: EulerAngles)
    ensures
        correction.x == bend_correction_of(relative.x),
        correction.y == scalar_negated(relative.y),
        correction.z == scalar_of(0),
{
    let epsilon = scalar_over(scalar_from_int(BEND_EPSILON_HUNDREDTHS), scalar_from_int(100));
    let x = if scalar_is_less(relative.x, epsilon) {
        scalar_add(scalar_negate(relative.x), epsilon)
    } else {
        scalar_from_int(0)
    };
    EulerAngles { x, y: scalar_negate(relative.y), z: scalar_from_int(0) }
}

/// Puts joint 1 at the first joint plus `offset`.
pub fn place_middle_joint(chain: &mut IkChain, offset: Vec3)
    ensures
        final(chain).joints() == old(chain).joints().update(
            1,
            vec3_sum(old(chain).joints()[0], offset),
        ),
        final(chain).anchor() == old(chain).anchor(),
        final(chain).rests() == old(chain).rests(),
{
    let points_count = chain.point_count();
    let first_point = chain.point(0);
    chain.set_point(1, plus(first_point, offset));
}

/// Keeps the middle joint of a three-point leg bending to the expected side.
///
/// The leg's overall rotation looks from the first joint to the last, the
/// joint's rotation from the first joint to the middle one. The joint's
/// rotation relative to the leg is taken apart into angles, corrected by
/// `bend_correction`, and the middle joint is put back at the first joint
/// plus the corrected rotation applied to the first segment laid along the
/// forward axis.
///
/// The rotations are multiplied and taken apart by operations whose last
/// bits are not fixed, so the position of joint 1 is not a function of the
/// chain. The contract fixes what is handed to each of these operations and
/// what is done with what they give.
pub fn constrain_chain_orientation(chain: &mut IkChain)
    ensures
        final(chain).anchor() == old(chain).anchor(),
        final(chain).rests() == old(chain).rests(),
        oriented(old(chain).joints(), old(chain).rests(), final(chain).joints()),
{
    let points_count = chain.point_count();
    let first_point = chain.point(0);
    let last_point = chain.point(points_count - 1);
    let leg_orientation = rotation_looking_at(first_point, last_point, vec3_from_ints(0, 1, 0));

    let middle_point = chain.point(1);
    let joint_orientation = rotation_looking_at(first_point, middle_point, vec3_from_ints(0, 1, 0));

    let delta_orientation = compose(invert(leg_orientation), joint_orientation);
    let correction = bend_correction(&euler_angles(delta_orientation));
    let orientation_adjustment = rotation_from_euler(correction.x, correction.y, correction.z);

    let adjusted_orientation = compose(joint_orientation, orientation_adjustment);
    let segment = chain.get_segment(0);

    let offset = rotate(adjusted_orientation, scale(vec3_from_ints(0, 0, -1), segment.length));
    assert(corrected_offset(leg_orientation, joint_orientation, segment.length, offset));
    place_middle_joint(chain, offset);
}

/// The orientation pass keeps the number of joints and moves no joint but
/// joint 1.
pub proof fn lemma_oriented_moves_joint_one(
    before: Seq<Vec3>,
    rests: Seq<FloatOrd>,
    after: Seq<Vec3>,
)
    requires
        before.len() >= 2,
        oriented(before, rests, after),
    ensures
        after.len() == before.len(),
        forall|index: int| 0 <= index < before.len() && index != 1 ==> after[index] == before[index],
{
    let first = before[0];
    let leg = look_rotation(vec3_difference(before[before.len() - 1], first), up_axis());
    let joint = look_rotation(vec3_difference(before[1], first), up_axis());
    let offset = choose|offset: Vec3|
        {
            &&& #[trigger] corrected_offset(leg, joint, rests[0], offset)
            &&& after == before.update(1, vec3_sum(first, offset))
        };
    assert(after == before.update(1, vec3_sum(first, offset)));
}

} // verus!
