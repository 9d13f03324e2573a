//! The body of the creature: its legs, the error they have built up, and the
//! gait policy that lets one group of legs step while the other stays planted.
use crate::chain::IkChain;
use crate::leg::{lerp_speed, LegTarget, FABRIK_ITERATIONS, LERP_SPEED};
use crate::leg_solve::{leg_solved_towards, solve_leg_towards_target};
use crate::math::{
    distance, normalize_or_zero, plus, scalar_add, scalar_from_int, scalar_is_less, scalar_less,
    scalar_of, scalar_product, scalar_sum, scalar_times, scale, vec3_distance, vec3_from_ints,
    vec3_of, vec3_scaled, vec3_sum, vec3_unit_or_zero,
};
use bevy::math::Vec3;
use bevy::utils::FloatOrd;
use vstd::prelude::*;

verus! {

/// The combined error above which the other group of legs steps.
pub const LEG_ERROR_THRESHOLD: i16 = 12;

/// How far the body moves per second at full input.
pub const MOVE_SPEED: i16 = 6;

/// The threshold as a scalar.
pub open spec fn leg_error_threshold() -> FloatOrd {
    scalar_of(LEG_ERROR_THRESHOLD as int)
}

/// The speed of the body as a scalar.
pub open spec fn move_speed() -> FloatOrd {
    scalar_of(MOVE_SPEED as int)
}

/// The tag of the group that steps after `group`: two after one, one after anything else.
pub open spec fn other_group(group: u8) -> u8 {
    if group == 1 {
        2
    } else {
        1
    }
}

/// Whether a combined error is above the threshold.
pub open spec fn threshold_crossed(error: FloatOrd) -> bool {
    scalar_less(leg_error_threshold(), error)
}

/// The direction that four movement keys ask for: forward is `-z`, back is
/// `+z`, left is `-x`, right is `+x`, opposite keys cancel, and the sum is
/// brought to length one where it is not zero.
pub open spec fn input_direction(forward: bool, back: bool, left: bool, right: bool) -> Vec3 {
    vec3_unit_or_zero(
        vec3_of(
            (if right { 1int } else { 0int }) - (if left { 1int } else { 0int }),
            0,
            (if back { 1int } else { 0int }) - (if forward { 1int } else { 0int }),
        ),
    )
}

/// How far the body moves in `delta_seconds` under the input `move_input`.
pub open spec fn displacement(move_input: Vec3, delta_seconds: FloatOrd) -> Vec3 {
    vec3_scaled(vec3_scaled(move_input, delta_seconds), move_speed())
}

/// One leg of the creature: its chain, its target controller, and the
/// movement group it was put in when it was made.
pub struct SpiderLeg {
    pub chain: IkChain,
    pub target: LegTarget,
    pub movement_group: u8,
}

impl SpiderLeg {
    /// Where the foot would rest if it stood right under the body: the
    /// anchor of the chain plus the resting offset.
    pub open spec fn rest_point(self) -> Vec3 {
        vec3_sum(self.chain.anchor(), self.target.offset())
    }

    /// How far the leg's target is from its rest point.
    pub open spec fn position_error(self) -> FloatOrd {
        vec3_distance(self.rest_point(), self.target.target())
    }

    /// The leg once the body has carried its anchor along by `delta`.
    pub open spec fn moved(self, delta: Vec3) -> Self {
        SpiderLeg {
            chain: self.chain.moved_by(delta),
            target: self.target,
            movement_group: self.movement_group,
        }
    }

    /// The leg once its target has been moved to its rest point.
    pub open spec fn retargeted(self) -> Self {
        SpiderLeg {
            chain: self.chain,
            target: self.target.with_new_target(self.rest_point()),
            movement_group: self.movement_group,
        }
    }

    /// The leg as the gait policy leaves it when `group` takes the turn: sent
    /// to its rest point if it belongs to that group, untouched if not.
    pub open spec fn stepped(self, group: u8) -> Self {
        if self.movement_group == group {
            self.retargeted()
        } else {
            self
        }
    }

    /// Whether `after` can be this leg one animation tick later: the
    /// controller has advanced by the lerp speed times `delta_seconds`, and
    /// the chain has been solved toward the controller's new effective target.
    pub open spec fn animated_into(self, after: SpiderLeg, delta_seconds: FloatOrd) -> bool {
        &&& after.movement_group == self.movement_group
        &&& after.target == self.target.advanced(scalar_product(lerp_speed(), delta_seconds))
        &&& leg_solved_towards(
            self.chain,
            after.chain,
            after.target.effective_target(),
            FABRIK_ITERATIONS as int,
        )
    }

    /// Where the foot would rest if it stood right under the body.
    pub fn ideal_rest_point(&self) -> (point: Vec3)
        ensures
            point == self.rest_point(),
    {
        plus(self.chain.start(), self.target.reposition_target_offset())
    }

    /// Sends the leg's target to its rest point.
    pub fn retarget(&mut self)
        ensures
            *final(self) == old(self).retargeted(),
    {
        let target = self.ideal_rest_point();
        self.target.set_new_target(target);
    }

    /// One animation tick of the leg: the controller advances, and the chain
    /// is solved toward the controller's effective target.
    pub fn animate(&mut self, delta_seconds: FloatOrd)
        ensures
            old(self).animated_into(*final(self), delta_seconds),
    {
        self.target.advance(scalar_times(scalar_from_int(LERP_SPEED), delta_seconds));
        let target = self.target.target_for_tick();
        solve_leg_towards_target(&mut self.chain, target, FABRIK_ITERATIONS);
    }
}

/// The errors of the first `count` legs, added up from zero in order.
pub open spec fn combined_error(legs: Seq<SpiderLeg>, count: nat) -> FloatOrd
    decreases count,
{
    if count == 0 {
        scalar_of(0)
    } else {
        scalar_sum(combined_error(legs, (count - 1) as nat), legs[count - 1].position_error())
    }
}

/// The body of the creature.
pub struct Spider {
    combined_leg_position_error: FloatOrd,
    movement_group: u8,
    legs: Vec<SpiderLeg>,
}

impl Spider {
    #[verifier::type_invariant]
    spec fn tagged(self) -> bool {
        self.movement_group == 1 || self.movement_group == 2
    }

    /// The combined error of the legs as it was last computed.
    pub closed spec fn error(&self) -> FloatOrd {
        self.combined_leg_position_error
    }

    /// The group whose legs stepped last.
    pub closed spec fn group(&self) -> u8 {
        self.movement_group
    }

    /// The legs, in the order they were given.
    pub closed spec fn limbs(&self) -> Seq<SpiderLeg> {
        self.legs@
    }

    /// A body with the given legs, no error yet, and group two as the one
    /// that stepped last, so that group one steps first.
    pub fn new(legs: Vec<SpiderLeg>) -> (spider: Self)
        ensures
            spider.error() == scalar_of(0),
            spider.group() == 2,
            spider.limbs() == legs@,
    {
        Spider { combined_leg_position_error: scalar_from_int(0), movement_group: 2, legs }
    }

    /// The combined error of the legs as it was last computed.
    pub fn combined_leg_position_error(&self) -> (error: FloatOrd)
        ensures
            error == self.error(),
    {
        self.combined_leg_position_error
    }

    /// The group whose legs stepped last: one or two.
    pub fn movement_group(&self) -> (group: u8)
        ensures
            group == self.group(),
            group == 1 || group == 2,
    {
        proof {
            use_type_invariant(self);
        }
        self.movement_group
    }

    /// The legs, in the order they were given.
    pub fn legs(&self) -> (legs: &Vec<SpiderLeg>)
        ensures
            legs@ == self.limbs(),
    {
        &self.legs
    }

    /// Hands the turn to the other group.
    pub fn switch_movement_group(&mut self)
        ensures
            final(self).group() == other_group(old(self).group()),
            final(self).group() != old(self).group(),
            final(self).error() == old(self).error(),
            final(self).limbs() == old(self).limbs(),
    {
        proof {
            use_type_invariant(&*self);
        }
        self.movement_group = match self.movement_group {
            1 => 2,
            _ => 1,
        };
    }
}

/// The direction that four movement keys ask for.
pub fn movement_direction(forward: bool, back: bool, left: bool, right: bool) -> (direction: Vec3)
    ensures
        direction == input_direction(forward, back, left, right),
{
    let mut x: i16 = 0;
    let mut z: i16 = 0;
    if forward {
        z -= 1;
    }
    if back {
        z += 1;
    }
    if left {
        x -= 1;
    }
    if right {
        x += 1;
    }
    normalize_or_zero(vec3_from_ints(x, 0, z))
}

/// How far the body moves in `delta_seconds` under the input `move_input`.
pub fn body_displacement(move_input: Vec3, delta_seconds: FloatOrd) -> (delta: Vec3)
    ensures
        delta == displacement(move_input, delta_seconds),
{
    scale(scale(move_input, delta_seconds), scalar_from_int(MOVE_SPEED))
}

/// Moves the anchor of every leg by `delta`, as the body moves. The joints
/// stay behind until the legs are next solved.
pub fn move_legs(spider: &mut Spider, delta: Vec3)
    ensures
        final(spider).error() == old(spider).error(),
        final(spider).group() == old(spider).group(),
        final(spider).limbs() == old(spider).limbs().map_values(|leg: SpiderLeg| leg.moved(delta)),
{
    proof {
        use_type_invariant(&*spider);
    }
    let count = spider.legs.len();
    let mut index: usize = 0;
    while index < count
        invariant
            index <= count,
            count == spider.legs@.len(),
            count == old(spider).legs@.len(),
            spider.combined_leg_position_error == old(spider).combined_leg_position_error,
            spider.movement_group == old(spider).movement_group,
            spider.movement_group == 1 || spider.movement_group == 2,
            forall|i: int| 0 <= i < index ==> spider.legs@[i] == old(spider).legs@[i].moved(delta),
            forall|i: int| index <= i < count ==> spider.legs@[i] == old(spider).legs@[i],
        decreases count - index,
    {
        spider.legs[index].chain.move_start(delta);
        index += 1;
    }
    assert(spider.legs@ =~= old(spider).legs@.map_values(|leg: SpiderLeg| leg.moved(delta)));
}

/// Recomputes the combined error: the distance from each leg's target to its
/// rest point, summed over the legs in order.
pub fn update_leg_error(spider: &mut Spider)
    ensures
        final(spider).error() == combined_error(old(spider).limbs(), old(spider).limbs().len()),
        final(spider).group() == old(spider).group(),
        final(spider).limbs() == old(spider).limbs(),
{
    proof {
        use_type_invariant(&*spider);
    }
    let count = spider.legs.len();
    let mut combined = scalar_from_int(0);
    let mut index: usize = 0;
    while index < count
        invariant
            index <= count,
            count == spider.legs@.len(),
            *spider == *old(spider),
            combined == combined_error(spider.legs@, index as nat),
        decreases count - index,
    {
        let rest_point = spider.legs[index].ideal_rest_point();
        let target = spider.legs[index].target.current_target();
        combined = scalar_add(combined, distance(rest_point, target));
        index += 1;
    }
    spider.combined_leg_position_error = combined;
}

/// The gait policy. Where the combined error is above the threshold, the turn
/// passes to the other group and every leg of that group is sent to its rest
/// point; the legs of the group that loses the turn are not touched. Where
/// the error is not above the threshold nothing changes.
pub fn retarget_if_threshold_reached(spider: &mut Spider)
    ensures
        final(spider).error() == old(spider).error(),
        !threshold_crossed(old(spider).error()) ==> final(spider).group() == old(spider).group()
            && final(spider).limbs() == old(spider).limbs(),
        threshold_crossed(old(spider).error()) ==> final(spider).group() == other_group(
            old(spider).group(),
        ) && final(spider).group() != old(spider).group() && final(spider).limbs() == old(
            spider,
        ).limbs().map_values(|leg: SpiderLeg| leg.stepped(other_group(old(spider).group()))),
{
    if scalar_is_less(scalar_from_int(LEG_ERROR_THRESHOLD), spider.combined_leg_position_error) {
        spider.switch_movement_group();
        proof {
            use_type_invariant(&*spider);
        }
        let group = spider.movement_group;
        let count = spider.legs.len();
        let mut index: usize = 0;
        while index < count
            invariant
                index <= count,
                count == spider.legs@.len(),
                count == old(spider).legs@.len(),
                spider.combined_leg_position_error == old(spider).combined_leg_position_error,
                spider.movement_group == group,
                group == 1 || group == 2,
                forall|i: int|
                    0 <= i < index ==> spider.legs@[i] == old(spider).legs@[i].stepped(group),
                forall|i: int| index <= i < count ==> spider.legs@[i] == old(spider).legs@[i],
            decreases count - index,
        {
            if spider.legs[index].movement_group == group {
                spider.legs[index].retarget();
            }
            index += 1;
        }
        assert(spider.legs@ =~= old(spider).legs@.map_values(
            |leg: SpiderLeg| leg.stepped(group),
        ));
    }
}

/// One animation tick of every leg.
pub fn animate_legs(spider: &mut Spider, delta_seconds: FloatOrd)
    ensures
        final(spider).error() == old(spider).error(),
        final(spider).group() == old(spider).group(),
        final(spider).limbs().len() == old(spider).limbs().len(),
        forall|i: int|
            0 <= i < old(spider).limbs().len() ==> old(spider).limbs()[i].animated_into(
                #[trigger] final(spider).limbs()[i],
                delta_seconds,
            ),
{
    proof {
        use_type_invariant(&*spider);
    }
    let count = spider.legs.len();
    let mut index: usize = 0;
    while index < count
        invariant
            index <= count,
            count == spider.legs@.len(),
            count == old(spider).legs@.len(),
            spider.combined_leg_position_error == old(spider).combined_leg_position_error,
            spider.movement_group == old(spider).movement_group,
            spider.movement_group == 1 || spider.movement_group == 2,
            forall|i: int|
                0 <= i < index ==> old(spider).legs@[i].animated_into(
                    #[trigger] spider.legs@[i],
                    delta_seconds,
                ),
            forall|i: int| index <= i < count ==> spider.legs@[i] == old(spider).legs@[i],
        decreases count - index,
    {
        spider.legs[index].animate(delta_seconds);
        index += 1;
    }
}

/// One simulated tick, in the order that the gait depends on: the legs'
/// anchors follow the body, the combined error is taken from where the
/// targets were left, the gait policy hands out new targets, and only then
/// is every leg animated and solved. Returns how far the body has moved.
pub fn simulate_tick(spider: &mut Spider, move_input: Vec3, delta_seconds: FloatOrd) -> (delta: Vec3)
    ensures
        delta == displacement(move_input, delta_seconds),
        ({
            let moved = old(spider).limbs().map_values(|leg: SpiderLeg| leg.moved(delta));
            let error = combined_error(moved, moved.len());
            let group = if threshold_crossed(error) {
                other_group(old(spider).group())
            } else {
                old(spider).group()
            };
            &&& final(spider).error() == error
            &&& final(spider).group() == group
            &&& final(spider).limbs().len() == moved.len()
            &&& forall|i: int|
                0 <= i < moved.len() ==> (if threshold_crossed(error) {
                    moved[i].stepped(group)
                } else {
                    moved[i]
                }).animated_into(#[trigger] final(spider).limbs()[i], delta_seconds)
        }),
{
    let delta = body_displacement(move_input, delta_seconds);
    move_legs(spider, delta);
    update_leg_error(spider);
    retarget_if_threshold_reached(spider);
    animate_legs(spider, delta_seconds);
    delta
}

/// The turn alternates between the two groups: the group that steps next is
/// never the one that stepped last, and two handovers lead back.
pub proof fn lemma_groups_alternate(group: u8)
    requires
        group == 1 || group == 2,
    ensures
        other_group(group) == 1 || other_group(group) == 2,
        other_group(group) != group,
        other_group(other_group(group)) == group,
{
}

/// When a group takes the turn, its legs are sent to their rest points and
/// no other leg is touched.
pub proof fn lemma_only_the_stepping_group_moves(leg: SpiderLeg, group: u8)
    ensures
        leg.movement_group == group ==> leg.stepped(group) == leg.retargeted(),
        leg.movement_group != group ==> leg.stepped(group) == leg,
        leg.stepped(group).chain == leg.chain,
        leg.stepped(group).movement_group == leg.movement_group,
{
}

} // verus!
