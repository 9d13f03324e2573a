//! Solving a leg: the reaching passes with the orientation pass after each round.
use crate::chain::IkChain;
use crate::fabrik::{reached, solve_chain_towards_target, solved};
use crate::orientation::{constrain_chain_orientation, lemma_oriented_moves_joint_one, oriented};
use bevy::math::Vec3;
use bevy::utils::FloatOrd;
use vstd::prelude::*;

verus! {

/// Whether `after` can be the joints at the end of one round of solving a
/// leg that began with `before`: both passes ran, and then the orientation
/// pass worked on what they left.
pub open spec fn iteration_of(
    start: Vec3,
    rests: Seq<FloatOrd>,
    target: Vec3,
    before: Seq<Vec3>,
    after: Seq<Vec3>,
) -> bool {
    oriented(reached(start, before, rests, target), rests, after)
}

/// Whether each of `states` but the first can be what one round of solving a
/// leg toward `target` makes of the state before it.
pub open spec fn rounds_of(
    start: Vec3,
    rests: Seq<FloatOrd>,
    target: Vec3,
    states: Seq<Seq<Vec3>>,
) -> bool {
    forall|round: int|
        0 <= round < states.len() - 1 ==> iteration_of(
            start,
            rests,
            target,
            #[trigger] states[round],
            states[round + 1],
        )
}

/// Whether `after` can be what `rounds` rounds of solving a leg toward
/// `target` make of `before`: the anchor and the rest lengths are kept, and
/// the joints went through one state per round, each a round's work on the
/// one before.
pub open spec fn leg_solved_towards(
    before: IkChain,
    after: IkChain,
    target: Vec3,
    rounds: int,
) -> bool {
    &&& after.anchor() == before.anchor()
    &&& after.rests() == before.rests()
    &&& exists|states: Seq<Seq<Vec3>>|
        {
            &&& states.len() == rounds + 1
            &&& states[0] == before.joints()
            &&& states[rounds] == after.joints()
            &&& #[trigger] rounds_of(before.anchor(), before.rests(), target, states)
        }
}

/// Solves a leg: `iterations` rounds, each a backward pass, a forward pass
/// and the orientation pass. A count of zero or less leaves the chain as it is.
///
/// The orientation pass rests on operations whose last bits are not fixed,
/// so the joints are not a function of the arguments. What holds of every
/// outcome: the anchor and the rest lengths stay, every round is the two
/// passes followed by the orientation pass on what they left, and after at
/// least one round the first joint sits on the anchor.
pub fn solve_leg_towards_target(chain: &mut IkChain, target: Vec3, iterations: i32)
    ensures
        iterations <= 0 ==> *final(chain) == *old(chain),
        iterations >= 1 ==> leg_solved_towards(
            *old(chain),
            *final(chain),
            target,
            iterations as int,
        ),
        final(chain).joints().len() == old(chain).joints().len(),
        iterations >= 1 ==> final(chain).joints()[0] == final(chain).anchor(),
{
    let ghost mut states: Seq<Seq<Vec3>> = seq![chain.joints()];
    let points_count = chain.point_count();
    let mut round: i32 = 0;
    while round < iterations
        invariant
            0 <= round,
            iterations >= 1 ==> round <= iterations,
            iterations <= 0 ==> round == 0,
            round == 0 ==> *chain == *old(chain),
            chain.anchor() == old(chain).anchor(),
            chain.rests() == old(chain).rests(),
            chain.joints().len() == old(chain).joints().len(),
            chain.joints().len() >= 2,
            states.len() == round + 1,
            states[0] == old(chain).joints(),
            states[round as int] == chain.joints(),
            rounds_of(chain.anchor(), chain.rests(), target, states),
            round >= 1 ==> chain.joints()[0] == chain.anchor(),
        decreases iterations - round,
    {
        let ghost before = chain.joints();
        solve_chain_towards_target(chain, target, 1);
        let ghost passed = chain.joints();
        constrain_chain_orientation(chain);
        proof {
            let earlier = states;
            states = states.push(chain.joints());
            reveal_with_fuel(solved, 2);
            assert(passed == reached(chain.anchor(), before, chain.rests(), target));
            assert(iteration_of(chain.anchor(), chain.rests(), target, before, chain.joints()));
            lemma_iteration_anchors(chain.anchor(), chain.rests(), target, before, chain.joints());
            assert forall|i: int| 0 <= i < states.len() - 1 implies iteration_of(
                chain.anchor(),
                chain.rests(),
                target,
                #[trigger] states[i],
                states[i + 1],
            ) by {
                if i < earlier.len() - 1 {
                    assert(states[i] == earlier[i]);
                    assert(states[i + 1] == earlier[i + 1]);
                }
            }
        }
        round += 1;
    }
}

/// One round of solving a leg keeps the number of joints and leaves the
/// first joint on the anchor.
pub proof fn lemma_iteration_anchors(
    start: Vec3,
    rests: Seq<FloatOrd>,
    target: Vec3,
    before: Seq<Vec3>,
    after: Seq<Vec3>,
)
    requires
        before.len() >= 2,
        iteration_of(start, rests, target, before, after),
    ensures
        after.len() == before.len(),
        after[0] == start,
{
    let passed = reached(start, before, rests, target);
    assert(passed.len() == before.len());
    assert(passed[0] == start);
    lemma_oriented_moves_joint_one(passed, rests, after);
}

/// Every state of a run of rounds has as many joints as the first.
pub proof fn lemma_rounds_keep_the_count(
    start: Vec3,
    rests: Seq<FloatOrd>,
    target: Vec3,
    states: Seq<Seq<Vec3>>,
    round: int,
)
    requires
        rounds_of(start, rests, target, states),
        0 <= round < states.len(),
        states[0].len() >= 2,
    ensures
        states[round].len() == states[0].len(),
    decreases round,
{
    if round > 0 {
        lemma_rounds_keep_the_count(start, rests, target, states, round - 1);
        assert(iteration_of(start, rests, target, states[round - 1], states[round - 1 + 1]));
        lemma_iteration_anchors(start, rests, target, states[round - 1], states[round]);
    }
}

/// A leg that has been solved for at least one round has as many joints as
/// before, and its first joint sits on its anchor.
pub proof fn lemma_solved_leg_is_anchored(
    before: IkChain,
    after: IkChain,
    target: Vec3,
    rounds: int,
)
    requires
        before.well_formed(),
        rounds >= 1,
        leg_solved_towards(before, after, target, rounds),
    ensures
        after.joints().len() == before.joints().len(),
        after.joints()[0] == after.anchor(),
{
    let states = choose|states: Seq<Seq<Vec3>>|
        {
            &&& states.len() == rounds + 1
            &&& states[0] == before.joints()
            &&& states[rounds] == after.joints()
            &&& #[trigger] rounds_of(before.anchor(), before.rests(), target, states)
        };
    lemma_rounds_keep_the_count(before.anchor(), before.rests(), target, states, rounds - 1);
    assert(iteration_of(
        before.anchor(),
        before.rests(),
        target,
        states[rounds - 1],
        states[rounds - 1 + 1],
    ));
    lemma_iteration_anchors(
        before.anchor(),
        before.rests(),
        target,
        states[rounds - 1],
        states[rounds],
    );
}

} // verus!
