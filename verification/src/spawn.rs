//! Making a creature: its legs are copies of one base leg, each turned about
//! the up axis and attached to the body at its own offset.
use crate::chain::{rest_lengths, IkChain};
use crate::leg::{AnimatedLeg, LegTarget};
use crate::math::{
    axis_rotation_is, plus, quat_rotates, radians_are, rotate, rotation_about_axis, scalar_of,
    scalar_to_radians, vec3_from_ints, vec3_sum,
};
use crate::orientation::up_axis;
use crate::spider::{Spider, SpiderLeg};
use bevy::math::{Quat, Vec3};
use bevy::utils::FloatOrd;
use vstd::prelude::*;

verus! {

/// What is known of a leg when the creature is made: where it is attached
/// relative to the body, the angle in degrees by which it is turned about the
/// up axis, and its movement group.
pub struct LegSpawnInfo {
    pub position_offset: Vec3,
    pub angle_offset: FloatOrd,
    pub movement_group: u8,
}

impl LegSpawnInfo {
    /// The spawn data of one leg.
    pub fn new(pos: Vec3, angle: FloatOrd, group: u8) -> (info: Self)
        ensures
            info.position_offset == pos,
            info.angle_offset == angle,
            info.movement_group == group,
    {
        LegSpawnInfo { position_offset: pos, angle_offset: angle, movement_group: group }
    }
}

/// Whether `joint` can be `point` as turned by `rotation` and attached at `origin`.
pub open spec fn turned_point(rotation: Quat, point: Vec3, origin: Vec3, joint: Vec3) -> bool {
    exists|turned: Vec3|
        {
            &&& #[trigger] quat_rotates(rotation, point, turned)
            &&& joint == vec3_sum(origin, turned)
        }
}

/// Whether `leg` can be the base leg as turned by `rotation` and attached at
/// `origin`: each joint is the origin plus the base point as the rotation
/// turned it; the anchor is the first joint and the rest lengths are those of
/// the joints; the resting offset is `target_offset` as the rotation turned
/// it; and the leg is an animated leg at rest on the first base point plus
/// its resting offset.
pub open spec fn turned_by(
    leg: SpiderLeg,
    rotation: Quat,
    base_points: Seq<Vec3>,
    origin: Vec3,
    target_offset: Vec3,
) -> bool {
    &&& leg.chain.joints().len() == base_points.len()
    &&& forall|i: int|
        0 <= i < base_points.len() ==> #[trigger] turned_point(
            rotation,
            base_points[i],
            origin,
            leg.chain.joints()[i],
        )
    &&& leg.chain.anchor() == leg.chain.joints()[0]
    &&& leg.chain.rests() == rest_lengths(leg.chain.joints())
    &&& quat_rotates(rotation, target_offset, leg.target.offset())
    &&& leg.target == LegTarget::Animated(
        AnimatedLeg {
            reposition_target_offset: leg.target.offset(),
            previous_target: vec3_sum(base_points[0], leg.target.offset()),
            current_target: vec3_sum(base_points[0], leg.target.offset()),
            lerp_fraction: scalar_of(0),
        },
    )
}

/// Whether `leg` can be the leg made from `base_points` for the spawn data
/// `data` of a body at `body_position`: one rotation, about the up axis by
/// the leg's angle in radians, turned every base point and the target
/// offset; the leg is attached at the body's position plus its own offset,
/// and carries the movement group it was given.
pub open spec fn spawned_from(
    leg: SpiderLeg,
    base_points: Seq<Vec3>,
    body_position: Vec3,
    target_offset: Vec3,
    data: LegSpawnInfo,
) -> bool {
    &&& leg.movement_group == data.movement_group
    &&& exists|radians: FloatOrd, rotation: Quat|
        {
            &&& radians_are(data.angle_offset, radians)
            &&& #[trigger] axis_rotation_is(up_axis(), radians, rotation)
            &&& turned_by(
                leg,
                rotation,
                base_points,
                vec3_sum(body_position, data.position_offset),
                target_offset,
            )
        }
}

/// Makes one leg: the base points and the resting offset are turned about
/// the up axis by the leg's angle, and the turned points are attached to the
/// body at the leg's position offset.
///
/// The rotation comes out of a sine and a cosine, so the joints are not a
/// function of the arguments. The contract fixes that one rotation, made
/// from the up axis and the leg's angle, turned every point.
pub fn spawn_leg(
    base_points: &Vec<Vec3>,
    body_position: Vec3,
    target_offset: Vec3,
    data: &LegSpawnInfo,
) -> (leg: SpiderLeg)
    requires
        base_points@.len() >= 2,
    ensures
        spawned_from(leg, base_points@, body_position, target_offset, *data),
{
    let radians = scalar_to_radians(data.angle_offset);
    let rotation = rotation_about_axis(vec3_from_ints(0, 1, 0), radians);
    let origin = plus(body_position, data.position_offset);
    let mut points_of_current_leg: Vec<Vec3> = Vec::new();
    let mut index: usize = 0;
    while index < base_points.len()
        invariant
            index <= base_points@.len(),
            points_of_current_leg@.len() == index,
            forall|i: int|
                0 <= i < index ==> #[trigger] turned_point(
                    rotation,
                    base_points@[i],
                    origin,
                    points_of_current_leg@[i],
                ),
        decreases base_points@.len() - index,
    {
        let turned = rotate(rotation, base_points[index]);
        points_of_current_leg.push(plus(origin, turned));
        index += 1;
    }
    let start = base_points[0];
    let offset = rotate(rotation, target_offset);
    let target = plus(start, offset);
    let leg = SpiderLeg {
        chain: IkChain::new(points_of_current_leg),
        target: LegTarget::Animated(AnimatedLeg::new(offset, target)),
        movement_group: data.movement_group,
    };
    assert(turned_by(leg, rotation, base_points@, origin, target_offset));
    assert(axis_rotation_is(up_axis(), radians, rotation));
    leg
}

/// Makes the legs of a creature, one for each entry of `legs_data`, in order.
pub fn spawn_spider_legs(
    base_points: &Vec<Vec3>,
    body_position: Vec3,
    target_offset: Vec3,
    legs_data: &Vec<LegSpawnInfo>,
) -> (legs: Vec<SpiderLeg>)
    requires
        base_points@.len() >= 2,
    ensures
        legs@.len() == legs_data@.len(),
        forall|i: int|
            0 <= i < legs_data@.len() ==> spawned_from(
                #[trigger] legs@[i],
                base_points@,
                body_position,
                target_offset,
                legs_data@[i],
            ),
{
    let mut legs: Vec<SpiderLeg> = Vec::new();
    let mut index: usize = 0;
    while index < legs_data.len()
        invariant
            base_points@.len() >= 2,
            index <= legs_data@.len(),
            legs@.len() == index,
            forall|i: int|
                0 <= i < index ==> spawned_from(
                    #[trigger] legs@[i],
                    base_points@,
                    body_position,
                    target_offset,
                    legs_data@[i],
                ),
        decreases legs_data@.len() - index,
    {
        legs.push(spawn_leg(base_points, body_position, target_offset, &legs_data[index]));
        index += 1;
    }
    legs
}

/// Makes a creature at `body_position` with the given legs.
pub fn spawn_spider(
    base_points: &Vec<Vec3>,
    body_position: Vec3,
    target_offset: Vec3,
    legs_data: &Vec<LegSpawnInfo>,
) -> (spider: Spider)
    requires
        base_points@.len() >= 2,
    ensures
        spider.error() == scalar_of(0),
        spider.group() == 2,
        spider.limbs().len() == legs_data@.len(),
        forall|i: int|
            0 <= i < legs_data@.len() ==> spawned_from(
                #[trigger] spider.limbs()[i],
                base_points@,
                body_position,
                target_offset,
                legs_data@[i],
            ),
{
    Spider::new(spawn_spider_legs(base_points, body_position, target_offset, legs_data))
}

} // verus!
