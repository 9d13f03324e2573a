use bevy::math::Vec3;
use spider_ik::chain::IkChain;
use spider_ik::fabrik::{backward_fabrik_pass, forward_fabrik_pass, solve_chain_towards_target};

fn leg_points() -> Vec<Vec3> {
    vec![Vec3::new(0.0, 0.0, 0.0), Vec3::new(2.0, 3.0, 0.0), Vec3::new(4.0, 0.0, 0.0)]
}

fn segment_lengths(chain: &IkChain) -> Vec<f32> {
    let points = chain.points();
    (0..points.len() - 1).map(|i| points[i].distance(points[i + 1])).collect()
}

#[test]
fn backward_pass_puts_the_effector_on_the_target() {
    let mut chain = IkChain::new(leg_points());
    let target = Vec3::new(3.0, 1.0, 0.5);
    backward_fabrik_pass(&mut chain, target);
    assert_eq!(chain.points()[2], target);
    assert_eq!(chain.start(), Vec3::ZERO);
}

#[test]
fn backward_pass_places_each_point_from_its_successor() {
    let mut chain = IkChain::new(leg_points());
    let target = Vec3::new(3.0, 1.0, 0.5);
    let rest = 13.0f32.sqrt();
    backward_fabrik_pass(&mut chain, target);
    let middle = target + (Vec3::new(2.0, 3.0, 0.0) - target).normalize_or_zero() * rest;
    let first = middle + (Vec3::ZERO - middle).normalize_or_zero() * rest;
    assert_eq!(chain.points()[1], middle);
    assert_eq!(chain.points()[0], first);
}

#[test]
fn forward_pass_places_each_point_from_its_predecessor() {
    let mut chain = IkChain::new(leg_points());
    chain.move_start(Vec3::new(1.0, 1.0, 0.0));
    let rest = 13.0f32.sqrt();
    forward_fabrik_pass(&mut chain);
    let first = Vec3::new(1.0, 1.0, 0.0);
    let middle = first + (Vec3::new(2.0, 3.0, 0.0) - first).normalize_or_zero() * rest;
    let last = middle + (Vec3::new(4.0, 0.0, 0.0) - middle).normalize_or_zero() * rest;
    assert_eq!(chain.points(), &vec![first, middle, last]);
}

#[test]
fn both_passes_keep_every_segment_at_its_rest_length() {
    let targets = [
        Vec3::new(3.0, 1.0, 0.0),
        Vec3::new(10.0, 0.0, 0.0),
        Vec3::new(-2.0, 5.0, 4.0),
        Vec3::new(0.1, 0.0, 0.0),
        Vec3::new(100.0, -50.0, 25.0),
    ];
    for target in targets {
        for rounds in 1..8 {
            let mut chain = IkChain::new(leg_points());
            for _ in 0..rounds {
                backward_fabrik_pass(&mut chain, target);
                for length in segment_lengths(&chain) {
                    assert!((length - 13.0f32.sqrt()).abs() < 1e-4);
                }
                forward_fabrik_pass(&mut chain);
                for length in segment_lengths(&chain) {
                    assert!((length - 13.0f32.sqrt()).abs() < 1e-4);
                }
            }
        }
    }
}

#[test]
fn longer_chains_keep_their_rest_lengths_too() {
    let points = vec![
        Vec3::new(0.0, 0.0, 0.0),
        Vec3::new(1.0, 0.0, 0.0),
        Vec3::new(1.0, 2.0, 0.0),
        Vec3::new(1.0, 2.0, 3.0),
        Vec3::new(0.0, 2.0, 3.0),
    ];
    let rests = [1.0f32, 2.0, 3.0, 1.0];
    let mut chain = IkChain::new(points);
    solve_chain_towards_target(&mut chain, Vec3::new(2.0, 2.0, 2.0), 5);
    let lengths = segment_lengths(&chain);
    for i in 0..4 {
        assert!((lengths[i] - rests[i]).abs() < 1e-4);
    }
    assert_eq!(chain.points()[0], Vec3::ZERO);
}

#[test]
fn solving_leaves_the_first_point_on_the_anchor() {
    let mut chain = IkChain::new(leg_points());
    chain.move_start(Vec3::new(0.5, 0.0, -0.25));
    assert_ne!(chain.points()[0], chain.start());
    solve_chain_towards_target(&mut chain, Vec3::new(3.0, 1.0, 0.0), 1);
    assert_eq!(chain.points()[0], chain.start());
    chain.move_start(Vec3::new(0.0, 1.0, 0.0));
    solve_chain_towards_target(&mut chain, Vec3::new(30.0, 1.0, 0.0), 6);
    assert_eq!(chain.points()[0], Vec3::new(0.5, 1.0, -0.25));
}

#[test]
fn solving_with_no_iterations_changes_nothing() {
    let mut chain = IkChain::new(leg_points());
    chain.move_start(Vec3::new(0.5, 0.0, 0.0));
    solve_chain_towards_target(&mut chain, Vec3::new(3.0, 1.0, 0.0), 0);
    assert_eq!(chain.points(), &leg_points());
    solve_chain_towards_target(&mut chain, Vec3::new(3.0, 1.0, 0.0), -4);
    assert_eq!(chain.points(), &leg_points());
    assert_eq!(chain.start(), Vec3::new(0.5, 0.0, 0.0));
}

#[test]
fn solving_keeps_the_rest_lengths_on_record() {
    let mut chain = IkChain::new(leg_points());
    let before = (chain.get_segment(0).length, chain.get_segment(1).length);
    solve_chain_towards_target(&mut chain, Vec3::new(-3.0, 4.0, 2.0), 6);
    assert_eq!((chain.get_segment(0).length, chain.get_segment(1).length), before);
    assert_eq!(chain.point_count(), 3);
}

#[test]
fn reaching_a_target_in_range_never_gets_worse_with_more_rounds() {
    let targets = [
        Vec3::new(3.0, 1.0, 0.0),
        Vec3::new(1.0, 2.0, 2.0),
        Vec3::new(5.0, -1.0, 1.0),
        Vec3::new(0.5, 0.2, 0.0),
    ];
    for target in targets {
        let mut previous = f32::INFINITY;
        for rounds in 0..40 {
            let mut chain = IkChain::new(leg_points());
            solve_chain_towards_target(&mut chain, target, rounds);
            let error = chain.points()[2].distance(target);
            assert!(error <= previous + 1e-5);
            previous = error;
        }
    }
}

#[test]
fn reaching_a_target_in_range_converges() {
    let target = Vec3::new(3.0, 1.0, 0.0);
    let mut chain = IkChain::new(leg_points());
    solve_chain_towards_target(&mut chain, target, 40);
    assert!(chain.points()[2].distance(target) < 1e-4);
}

#[test]
fn solving_is_the_two_passes_round_after_round() {
    let target = Vec3::new(3.0, 1.0, 0.5);
    let mut solved = IkChain::new(leg_points());
    solved.move_start(Vec3::new(0.0, 0.5, 0.0));
    let mut stepped = IkChain::new(leg_points());
    stepped.move_start(Vec3::new(0.0, 0.5, 0.0));
    solve_chain_towards_target(&mut solved, target, 3);
    for _ in 0..3 {
        backward_fabrik_pass(&mut stepped, target);
        forward_fabrik_pass(&mut stepped);
    }
    assert_eq!(solved.points(), stepped.points());
}

#[test]
fn a_target_out_of_range_straightens_the_chain() {
    let target = Vec3::new(0.0, 20.0, 0.0);
    let reach = 2.0 * 13.0f32.sqrt();
    let mut chain = IkChain::new(leg_points());
    solve_chain_towards_target(&mut chain, target, 20);
    let points = chain.points();
    assert!((points[2].distance(points[0]) - reach).abs() < 1e-3);
    assert!(points[2].distance(Vec3::new(0.0, reach, 0.0)) < 1e-3);
    assert!(points[1].distance(Vec3::new(0.0, reach / 2.0, 0.0)) < 1e-2);
}

#[test]
fn unreachable_target_end_to_end() {
    let target = Vec3::new(10.0, 0.0, 0.0);
    let reach = 2.0 * 13.0f32.sqrt();
    assert!((reach - 7.21).abs() < 2e-3);

    let mut chain = IkChain::new(leg_points());
    solve_chain_towards_target(&mut chain, target, 6);
    let points = chain.points();
    assert!(points[2].distance(Vec3::new(reach, 0.0, 0.0)) < 1e-3);
    assert!(points[1].y.abs() < 1e-2 && points[1].z == 0.0);
    assert!(points[0] == Vec3::ZERO);
    assert!(points[0].x < points[1].x && points[1].x < points[2].x);
}

#[test]
fn coincident_points_do_not_spread_nan() {
    let mut chain = IkChain::new(vec![Vec3::ZERO, Vec3::new(1.0, 0.0, 0.0), Vec3::new(2.0, 0.0, 0.0)]);
    // The target sits exactly on the middle joint: the direction from the
    // target to that joint has no length and is taken as zero.
    backward_fabrik_pass(&mut chain, Vec3::new(1.0, 0.0, 0.0));
    for point in chain.points() {
        assert!(point.is_finite());
    }
    assert_eq!(chain.points()[2], Vec3::new(1.0, 0.0, 0.0));
    assert_eq!(chain.points()[1], Vec3::new(1.0, 0.0, 0.0));
    forward_fabrik_pass(&mut chain);
    for point in chain.points() {
        assert!(point.is_finite());
    }
}
