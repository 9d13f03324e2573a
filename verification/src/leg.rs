//! Leg target controllers: where a leg's effector is asked to go on each tick.
use crate::chain::IkChain;
use crate::leg_solve::{leg_solved_towards, solve_leg_towards_target};
use crate::math::{
    distance, lerp, plus, scalar_add, scalar_from_int, scalar_is_less, scalar_less, scalar_of,
    scalar_over, scalar_product, scalar_quotient, scalar_sum, scalar_times, scale,
    vec3_distance, vec3_from_ints, vec3_lerp, vec3_scaled, vec3_sum,
};
use crate::orientation::up_axis;
use bevy::math::Vec3;
use bevy::utils::FloatOrd;
use vstd::prelude::*;

verus! {

/// How many solver rounds a leg gets on each tick.
pub const FABRIK_ITERATIONS: i32 = 6;

/// How much of a transition passes per second: a step takes a sixth of a second.
pub const LERP_SPEED: i16 = 6;

/// How high the arc of a step rises, in tenths of the distance travelled.
pub const CURVE_HEIGHT_TENTHS: i16 = 7;

/// The lerp speed as a scalar.
pub open spec fn lerp_speed() -> FloatOrd {
    scalar_of(LERP_SPEED as int)
}

/// The height of the arc as a share of the distance travelled: seven tenths.
pub open spec fn curve_height() -> FloatOrd {
    scalar_quotient(scalar_of(CURVE_HEIGHT_TENTHS as int), scalar_of(10))
}

/// One half, the fraction at which the arc is highest.
pub open spec fn one_half() -> FloatOrd {
    scalar_quotient(scalar_of(1), scalar_of(2))
}

/// Whether `a` is below `b` or the very same number.
pub open spec fn scalar_at_most(a: FloatOrd, b: FloatOrd) -> bool {
    scalar_less(a, b) || a == b
}

/// The fraction after `delta` more has passed: their sum, or one where the
/// sum is not below one.
pub open spec fn advanced_fraction(fraction: FloatOrd, delta: FloatOrd) -> FloatOrd {
    let sum = scalar_sum(fraction, delta);
    if scalar_less(sum, scalar_of(1)) {
        sum
    } else {
        scalar_of(1)
    }
}

/// The highest point of the arc from `start` to `end`: their midpoint, raised
/// by the distance between them times the curve height.
pub open spec fn curve_anchor(start: Vec3, end: Vec3) -> Vec3 {
    vec3_sum(
        vec3_lerp(start, end, one_half()),
        vec3_scaled(vec3_scaled(up_axis(), vec3_distance(start, end)), curve_height()),
    )
}

/// The point at `fraction` of the arc from `start` to `end`: a blend of the
/// way up to the anchor and the way down from it.
pub open spec fn curve_point(start: Vec3, end: Vec3, fraction: FloatOrd) -> Vec3 {
    let anchor = curve_anchor(start, end);
    vec3_lerp(vec3_lerp(start, anchor, fraction), vec3_lerp(anchor, end, fraction), fraction)
}

/// A leg whose effector is asked to sit on its target at once.
pub struct BasicLeg {
    /// Where the foot rests, relative to the anchor of the leg's chain.
    pub reposition_target_offset: Vec3,
    pub current_target: Vec3,
}

/// A leg whose effector travels to a new target along an arc.
pub struct AnimatedLeg {
    /// Where the foot rests, relative to the anchor of the leg's chain.
    pub reposition_target_offset: Vec3,
    pub previous_target: Vec3,
    pub current_target: Vec3,
    /// How much of the way from the previous to the current target is done.
    pub lerp_fraction: FloatOrd,
}

impl BasicLeg {
    /// A leg resting on `position`.
    pub fn new(reposition_target_offset: Vec3, position: Vec3) -> (leg: Self)
        ensures
            leg.reposition_target_offset == reposition_target_offset,
            leg.current_target == position,
    {
        BasicLeg { reposition_target_offset, current_target: position }
    }

    /// Replaces the target.
    pub fn set_new_target(&mut self, target: Vec3)
        ensures
            final(self).current_target == target,
            final(self).reposition_target_offset == old(self).reposition_target_offset,
    {
        self.current_target = target;
    }
}

impl AnimatedLeg {
    /// The leg once `target` has been set: the old target is where the
    /// transition starts, and none of it is done.
    pub open spec fn with_new_target(self, target: Vec3) -> Self {
        AnimatedLeg {
            reposition_target_offset: self.reposition_target_offset,
            previous_target: self.current_target,
            current_target: target,
            lerp_fraction: scalar_of(0),
        }
    }

    /// The leg once `delta` more of its transition has passed.
    pub open spec fn advanced(self, delta: FloatOrd) -> Self {
        AnimatedLeg {
            reposition_target_offset: self.reposition_target_offset,
            previous_target: self.previous_target,
            current_target: self.current_target,
            lerp_fraction: advanced_fraction(self.lerp_fraction, delta),
        }
    }

    /// Where the effector is asked to be right now.
    pub open spec fn effective_target(self) -> Vec3 {
        curve_point(self.previous_target, self.current_target, self.lerp_fraction)
    }

    /// Whether the leg has finished its transition: the fraction is exactly one.
    /// A leg that is not settled is in transition.
    pub open spec fn settled(self) -> bool {
        self.lerp_fraction == scalar_of(1)
    }

    /// A leg resting on `position`, with a transition from there to there
    /// of which nothing is done yet.
    pub fn new(reposition_target_offset: Vec3, position: Vec3) -> (leg: Self)
        ensures
            leg.reposition_target_offset == reposition_target_offset,
            leg.previous_target == position,
            leg.current_target == position,
            leg.lerp_fraction == scalar_of(0),
    {
        AnimatedLeg {
            reposition_target_offset,
            previous_target: position,
            current_target: position,
            lerp_fraction: scalar_from_int(0),
        }
    }

    /// Lets `delta` more of the transition pass, stopping at one.
    pub fn increase_lerp_fraction(&mut self, delta: FloatOrd)
        ensures
            *final(self) == old(self).advanced(delta),
    {
        let sum = scalar_add(self.lerp_fraction, delta);
        let one = scalar_from_int(1);
        self.lerp_fraction = if scalar_is_less(sum, one) { sum } else { one };
    }

    /// Starts a transition from the current target to `target`.
    pub fn set_new_target(&mut self, target: Vec3)
        ensures
            *final(self) == old(self).with_new_target(target),
    {
        self.previous_target = self.current_target;
        self.current_target = target;
        self.lerp_fraction = scalar_from_int(0);
    }

    /// Where the effector is asked to be right now: the point of the arc from
    /// the previous to the current target that the fraction picks.
    pub fn interpolated_target(&self) -> (target: Vec3)
        ensures
            target == self.effective_target(),
    {
        let start = self.previous_target;
        let end = self.current_target;
        let travelled = distance(start, end);
        let half = scalar_over(scalar_from_int(1), scalar_from_int(2));
        let height = scalar_over(scalar_from_int(CURVE_HEIGHT_TENTHS), scalar_from_int(10));
        let curve_anchor = plus(
            lerp(start, end, half),
            scale(scale(vec3_from_ints(0, 1, 0), travelled), height),
        );

        let start_to_anchor = lerp(start, curve_anchor, self.lerp_fraction);
        let anchor_to_end = lerp(curve_anchor, end, self.lerp_fraction);
        lerp(start_to_anchor, anchor_to_end, self.lerp_fraction)
    }
}

/// Either kind of leg target controller.
pub enum LegTarget {
    Basic(BasicLeg),
    Animated(AnimatedLeg),
}

impl LegTarget {
    /// Where the foot rests, relative to the anchor of the leg's chain.
    pub open spec fn offset(self) -> Vec3 {
        match self {
            LegTarget::Basic(leg) => leg.reposition_target_offset,
            LegTarget::Animated(leg) => leg.reposition_target_offset,
        }
    }

    /// The target that the leg is moving to or resting on.
    pub open spec fn target(self) -> Vec3 {
        match self {
            LegTarget::Basic(leg) => leg.current_target,
            LegTarget::Animated(leg) => leg.current_target,
        }
    }

    /// The controller once `target` has been set.
    pub open spec fn with_new_target(self, target: Vec3) -> Self {
        match self {
            LegTarget::Basic(leg) => LegTarget::Basic(
                BasicLeg {
                    reposition_target_offset: leg.reposition_target_offset,
                    current_target: target,
                },
            ),
            LegTarget::Animated(leg) => LegTarget::Animated(leg.with_new_target(target)),
        }
    }

    /// The controller once `delta` more of a transition has passed. A basic
    /// leg has no transition and stays as it is.
    pub open spec fn advanced(self, delta: FloatOrd) -> Self {
        match self {
            LegTarget::Basic(leg) => self,
            LegTarget::Animated(leg) => LegTarget::Animated(leg.advanced(delta)),
        }
    }

    /// Where the effector is asked to be right now: the current target of a
    /// basic leg, the point on the arc of an animated one.
    pub open spec fn effective_target(self) -> Vec3 {
        match self {
            LegTarget::Basic(leg) => leg.current_target,
            LegTarget::Animated(leg) => leg.effective_target(),
        }
    }

    /// Where the foot rests, relative to the anchor of the leg's chain.
    pub fn reposition_target_offset(&self) -> (offset: Vec3)
        ensures
            offset == self.offset(),
    {
        match self {
            LegTarget::Basic(leg) => leg.reposition_target_offset,
            LegTarget::Animated(leg) => leg.reposition_target_offset,
        }
    }

    /// The target that the leg is moving to or resting on.
    pub fn current_target(&self) -> (target: Vec3)
        ensures
            target == self.target(),
    {
        match self {
            LegTarget::Basic(leg) => leg.current_target,
            LegTarget::Animated(leg) => leg.current_target,
        }
    }

    /// Gives the leg a new target: at once for a basic leg, as the start of a
    /// transition for an animated one.
    pub fn set_new_target(&mut self, target: Vec3)
        ensures
            *final(self) == old(self).with_new_target(target),
    {
        match self {
            LegTarget::Basic(leg) => leg.set_new_target(target),
            LegTarget::Animated(leg) => leg.set_new_target(target),
        }
    }

    /// Lets `delta` more of a transition pass.
    pub fn advance(&mut self, delta: FloatOrd)
        ensures
            *final(self) == old(self).advanced(delta),
    {
        match self {
            LegTarget::Basic(_) => {},
            LegTarget::Animated(leg) => leg.increase_lerp_fraction(delta),
        }
    }

    /// Where the effector is asked to be right now.
    pub fn target_for_tick(&self) -> (target: Vec3)
        ensures
            target == self.effective_target(),
    {
        match self {
            LegTarget::Basic(leg) => leg.current_target,
            LegTarget::Animated(leg) => leg.interpolated_target(),
        }
    }
}

/// One tick of an animated leg: `delta_seconds` times the lerp speed more of
/// its transition passes, and its chain is solved toward the point of the arc
/// that the new fraction picks.
pub fn animate_leg_towards_target(chain: &mut IkChain, leg: &mut AnimatedLeg, delta_seconds: FloatOrd)
    ensures
        *final(leg) == old(leg).advanced(scalar_product(lerp_speed(), delta_seconds)),
        leg_solved_towards(
            *old(chain),
            *final(chain),
            final(leg).effective_target(),
            FABRIK_ITERATIONS as int,
        ),
        final(chain).joints().len() == old(chain).joints().len(),
        final(chain).joints()[0] == final(chain).anchor(),
{
    leg.increase_lerp_fraction(scalar_times(scalar_from_int(LERP_SPEED), delta_seconds));
    let interpolated_target = leg.interpolated_target();
    solve_leg_towards_target(chain, interpolated_target, FABRIK_ITERATIONS);
}

/// However far a transition is advanced, its fraction is below one or exactly one.
pub proof fn lemma_lerp_fraction_stops_at_one(fraction: FloatOrd, delta: FloatOrd)
    ensures
        scalar_at_most(advanced_fraction(fraction, delta), scalar_of(1)),
{
}

/// A fraction that is at most one does not fall when it is advanced by a
/// step whose sum with it is not below it.
pub proof fn lemma_lerp_fraction_never_falls(fraction: FloatOrd, delta: FloatOrd)
    requires
        scalar_at_most(fraction, scalar_of(1)),
        scalar_at_most(fraction, scalar_sum(fraction, delta)),
    ensures
        scalar_at_most(fraction, advanced_fraction(fraction, delta)),
{
}

/// A transition ends on the tick whose sum is not below one, and on no
/// earlier tick unless the sum is exactly one.
pub proof fn lemma_transition_ends_at_one(leg: AnimatedLeg, delta: FloatOrd)
    ensures
        leg.advanced(delta).settled() <==> !scalar_less(
            scalar_sum(leg.lerp_fraction, delta),
            scalar_of(1),
        ) || scalar_sum(leg.lerp_fraction, delta) == scalar_of(1),
        leg.advanced(delta).previous_target == leg.previous_target,
        leg.advanced(delta).current_target == leg.current_target,
{
}

/// Setting a new target makes the old target the start of the transition
/// and takes the fraction back to zero, whatever the leg was doing.
pub proof fn lemma_new_target_restarts(leg: AnimatedLeg, target: Vec3)
    ensures
        leg.with_new_target(target).previous_target == leg.current_target,
        leg.with_new_target(target).current_target == target,
        leg.with_new_target(target).lerp_fraction == scalar_of(0),
        leg.with_new_target(target).reposition_target_offset == leg.reposition_target_offset,
{
}

} // verus!
