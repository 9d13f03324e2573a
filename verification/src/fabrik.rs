//! Forward and backward reaching: the two passes that pull a chain toward a
//! target while every segment keeps its rest length.
use crate::chain::IkChain;
use crate::math::{
    minus, normalize_or_zero, plus, scale, vec3_difference, vec3_scaled, vec3_sum,
    vec3_unit_or_zero,
};
use bevy::math::Vec3;
use bevy::utils::FloatOrd;
use vstd::prelude::*;

verus! {

/// The point that lies `length` away from `from`, on the line toward `toward`.
/// Where the two points coincide the direction is zero and the point is `from`
/// plus a zero vector.
pub open spec fn placed(from: Vec3, toward: Vec3, length: FloatOrd) -> Vec3 {
    vec3_sum(from, vec3_scaled(vec3_unit_or_zero(vec3_difference(toward, from)), length))
}

/// Joint `index` after a backward pass: the effector sits on the target, and
/// every other joint is placed from its already moved successor toward its
/// own old position.
pub open spec fn backward_point(
    joints: Seq<Vec3>,
    rests: Seq<FloatOrd>,
    target: Vec3,
    index: int,
) -> Vec3
    decreases joints.len() - index,
{
    if index >= joints.len() - 1 {
        target
    } else {
        placed(backward_point(joints, rests, target, index + 1), joints[index], rests[index])
    }
}

/// All joints after a backward pass.
pub open spec fn backward_pass(joints: Seq<Vec3>, rests: Seq<FloatOrd>, target: Vec3) -> Seq<Vec3> {
    Seq::new(joints.len(), |index: int| backward_point(joints, rests, target, index))
}

/// Joint `index` after a forward pass: the first joint sits on the anchor, and
/// every other joint is placed from its already moved predecessor toward its
/// own old position.
pub open spec fn forward_point(
    start: Vec3,
    joints: Seq<Vec3>,
    rests: Seq<FloatOrd>,
    index: int,
) -> Vec3
    decreases index,
{
    if index <= 0 {
        start
    } else {
        placed(forward_point(start, joints, rests, index - 1), joints[index], rests[index - 1])
    }
}

/// All joints after a forward pass.
pub open spec fn forward_pass(start: Vec3, joints: Seq<Vec3>, rests: Seq<FloatOrd>) -> Seq<Vec3> {
    Seq::new(joints.len(), |index: int| forward_point(start, joints, rests, index))
}

/// Whether `to` lies at the rest length `length` from `from`: it is `from`
/// plus a direction of length one, or zero, scaled by `length`.
pub open spec fn at_rest_length(from: Vec3, to: Vec3, length: FloatOrd) -> bool {
    exists|toward: Vec3| to == #[trigger] placed(from, toward, length)
}

/// The joints after one backward and one forward pass toward `target`.
pub open spec fn reached(
    start: Vec3,
    joints: Seq<Vec3>,
    rests: Seq<FloatOrd>,
    target: Vec3,
) -> Seq<Vec3> {
    forward_pass(start, backward_pass(joints, rests, target), rests)
}

/// The joints after `rounds` rounds of backward and forward pass toward `target`.
pub open spec fn solved(
    start: Vec3,
    joints: Seq<Vec3>,
    rests: Seq<FloatOrd>,
    target: Vec3,
    rounds: nat,
) -> Seq<Vec3>
    decreases rounds,
{
    if rounds == 0 {
        joints
    } else {
        reached(start, solved(start, joints, rests, target, (rounds - 1) as nat), rests, target)
    }
}

/// Puts the effector on `target` and walks back to the first joint, placing
/// each joint at rest distance from its successor.
pub fn backward_fabrik_pass(chain: &mut IkChain, target: Vec3)
    ensures
        final(chain).joints() == backward_pass(old(chain).joints(), old(chain).rests(), target),
        final(chain).anchor() == old(chain).anchor(),
        final(chain).rests() == old(chain).rests(),
{
    let ghost joints = chain.joints();
    let ghost rests = chain.rests();
    let points_count = chain.point_count();
    chain.set_point(points_count - 1, target);
    let mut index: usize = points_count - 1;
    while index > 0
        invariant
            index < points_count,
            points_count == joints.len(),
            rests.len() + 1 == joints.len(),
            chain.joints().len() == points_count,
            chain.rests() == rests,
            chain.anchor() == old(chain).anchor(),
            forall|i: int|
                index <= i < points_count ==> chain.joints()[i] == backward_point(
                    joints,
                    rests,
                    target,
                    i,
                ),
            forall|i: int| 0 <= i < index ==> chain.joints()[i] == joints[i],
        decreases index,
    {
        index -= 1;
        let segment = chain.get_segment(index);
        let direction = normalize_or_zero(minus(segment.start, segment.end));
        chain.set_point(index, plus(segment.end, scale(direction, segment.length)));
    }
    assert(chain.joints() =~= backward_pass(joints, rests, target));
}

/// Puts the first joint back on the anchor and walks forward to the effector,
/// placing each joint at rest distance from its predecessor.
pub fn forward_fabrik_pass(chain: &mut IkChain)
    ensures
        final(chain).joints() == forward_pass(
            old(chain).anchor(),
            old(chain).joints(),
            old(chain).rests(),
        ),
        final(chain).anchor() == old(chain).anchor(),
        final(chain).rests() == old(chain).rests(),
{
    let ghost joints = chain.joints();
    let ghost rests = chain.rests();
    let ghost start = chain.anchor();
    let points_count = chain.point_count();
    let anchor = chain.start();
    chain.set_point(0, anchor);
    let mut index: usize = 0;
    while index < points_count - 1
        invariant
            index < points_count,
            points_count == joints.len(),
            rests.len() + 1 == joints.len(),
            chain.joints().len() == points_count,
            chain.rests() == rests,
            chain.anchor() == start,
            forall|i: int|
                0 <= i <= index ==> chain.joints()[i] == forward_point(start, joints, rests, i),
            forall|i: int| index < i < points_count ==> chain.joints()[i] == joints[i],
        decreases points_count - index,
    {
        let segment = chain.get_segment(index);
        let direction = normalize_or_zero(minus(segment.end, segment.start));
        chain.set_point(index + 1, plus(segment.start, scale(direction, segment.length)));
        index += 1;
    }
    assert(chain.joints() =~= forward_pass(start, joints, rests));
}

/// Runs `iterations` rounds of backward pass and forward pass toward
/// `target`. A count of zero or less leaves the chain as it is. Every
/// segment keeps its rest length on record, and after at least one round the
/// first joint sits on the anchor.
pub fn solve_chain_towards_target(chain: &mut IkChain, target: Vec3, iterations: i32)
    ensures
        final(chain).joints() == solved(
            old(chain).anchor(),
            old(chain).joints(),
            old(chain).rests(),
            target,
            if iterations > 0 { iterations as nat } else { 0 },
        ),
        final(chain).anchor() == old(chain).anchor(),
        final(chain).rests() == old(chain).rests(),
        final(chain).joints().len() == old(chain).joints().len(),
        iterations >= 1 ==> final(chain).joints()[0] == final(chain).anchor(),
{
    let points_count = chain.point_count();
    let mut round: i32 = 0;
    while round < iterations
        invariant
            0 <= round,
            iterations >= 1 ==> round <= iterations,
            iterations <= 0 ==> round == 0,
            chain.anchor() == old(chain).anchor(),
            chain.rests() == old(chain).rests(),
            chain.joints().len() == points_count,
            points_count == old(chain).joints().len(),
            points_count >= 2,
            chain.joints() == solved(
                old(chain).anchor(),
                old(chain).joints(),
                old(chain).rests(),
                target,
                round as nat,
            ),
            round >= 1 ==> chain.joints()[0] == chain.anchor(),
        decreases iterations - round,
    {
        backward_fabrik_pass(chain, target);
        forward_fabrik_pass(chain);
        round += 1;
    }
}

/// A forward pass keeps the number of joints and puts the first joint on the
/// anchor, whatever the joints were.
pub proof fn lemma_forward_pass_anchors(start: Vec3, joints: Seq<Vec3>, rests: Seq<FloatOrd>)
    requires
        joints.len() >= 1,
    ensures
        forward_pass(start, joints, rests).len() == joints.len(),
        forward_pass(start, joints, rests)[0] == start,
{
}

/// After a backward pass every segment is at its rest length, measured from
/// its far end.
pub proof fn lemma_backward_pass_keeps_rest_lengths(
    joints: Seq<Vec3>,
    rests: Seq<FloatOrd>,
    target: Vec3,
    segment: int,
)
    requires
        0 <= segment < joints.len() - 1,
    ensures
        at_rest_length(
            backward_pass(joints, rests, target)[segment + 1],
            backward_pass(joints, rests, target)[segment],
            rests[segment],
        ),
{
    let after = backward_pass(joints, rests, target);
    assert(after[segment] == placed(after[segment + 1], joints[segment], rests[segment]));
}

/// After a forward pass every segment is at its rest length, measured from
/// its near end.
pub proof fn lemma_forward_pass_keeps_rest_lengths(
    start: Vec3,
    joints: Seq<Vec3>,
    rests: Seq<FloatOrd>,
    segment: int,
)
    requires
        0 <= segment < joints.len() - 1,
    ensures
        at_rest_length(
            forward_pass(start, joints, rests)[segment],
            forward_pass(start, joints, rests)[segment + 1],
            rests[segment],
        ),
{
    let after = forward_pass(start, joints, rests);
    assert(after[segment + 1] == placed(after[segment], joints[segment + 1], rests[segment]));
}

/// After at least one round of solving, whatever the target and however many
/// rounds, every segment is at its rest length.
pub proof fn lemma_solved_keeps_rest_lengths(
    start: Vec3,
    joints: Seq<Vec3>,
    rests: Seq<FloatOrd>,
    target: Vec3,
    rounds: nat,
    segment: int,
)
    requires
        rounds >= 1,
        0 <= segment < joints.len() - 1,
    ensures
        at_rest_length(
            solved(start, joints, rests, target, rounds)[segment],
            solved(start, joints, rests, target, rounds)[segment + 1],
            rests[segment],
        ),
{
    let earlier = solved(start, joints, rests, target, (rounds - 1) as nat);
    lemma_solved_is_anchored(start, joints, rests, target, (rounds - 1) as nat);
    lemma_forward_pass_keeps_rest_lengths(
        start,
        backward_pass(earlier, rests, target),
        rests,
        segment,
    );
}

/// Solving keeps the number of joints, and after at least one round the
/// first joint sits on the anchor.
pub proof fn lemma_solved_is_anchored(
    start: Vec3,
    joints: Seq<Vec3>,
    rests: Seq<FloatOrd>,
    target: Vec3,
    rounds: nat,
)
    requires
        joints.len() >= 1,
    ensures
        solved(start, joints, rests, target, rounds).len() == joints.len(),
        rounds >= 1 ==> solved(start, joints, rests, target, rounds)[0] == start,
    decreases rounds,
{
    if rounds > 0 {
        lemma_solved_is_anchored(start, joints, rests, target, (rounds - 1) as nat);
    }
}

} // verus!
