use bevy::math::{Quat, Vec3};
use bevy::utils::FloatOrd;
use spider_ik::chain::IkChain;
use spider_ik::leg::{AnimatedLeg, BasicLeg, LegTarget};
use spider_ik::leg_piece::{position_leg_piece_on_chain, LegPiece};
use spider_ik::spawn::{spawn_leg, spawn_spider, spawn_spider_legs, LegSpawnInfo};
use spider_ik::spider::{
    animate_legs, body_displacement, move_legs, movement_direction, retarget_if_threshold_reached,
    simulate_tick, update_leg_error, Spider, SpiderLeg,
};

const OFFSET: Vec3 = Vec3::new(4.0, -0.5, 0.0);

/// A leg anchored at `anchor` whose target lies `error` away from its rest point.
fn leg_with_error(anchor: Vec3, error: f32, group: u8) -> SpiderLeg {
    let points = vec![anchor, anchor + Vec3::new(1.0, 3.0, 0.0), anchor + Vec3::new(2.0, 0.0, 0.0)];
    let target = anchor + OFFSET + Vec3::new(0.0, 0.0, error);
    SpiderLeg {
        chain: IkChain::new(points),
        target: LegTarget::Animated(AnimatedLeg::new(OFFSET, target)),
        movement_group: group,
    }
}

fn animated(leg: &SpiderLeg) -> &AnimatedLeg {
    match &leg.target {
        LegTarget::Animated(animated) => animated,
        LegTarget::Basic(_) => panic!("not an animated leg"),
    }
}

fn four_legs(errors: [f32; 4]) -> Spider {
    Spider::new(vec![
        leg_with_error(Vec3::new(0.0, 1.0, 0.0), errors[0], 1),
        leg_with_error(Vec3::new(0.0, 1.0, 1.0), errors[1], 2),
        leg_with_error(Vec3::new(0.0, 1.0, 2.0), errors[2], 1),
        leg_with_error(Vec3::new(0.0, 1.0, 3.0), errors[3], 2),
    ])
}

#[test]
fn new_spider_has_no_error_and_lets_group_one_step_first() {
    let spider = four_legs([0.0; 4]);
    assert_eq!(spider.combined_leg_position_error(), FloatOrd(0.0));
    assert_eq!(spider.movement_group(), 2);
    assert_eq!(spider.legs().len(), 4);
    assert_eq!(spider.legs()[2].movement_group, 1);
}

#[test]
fn switching_the_movement_group_alternates() {
    let mut spider = four_legs([0.0; 4]);
    let mut seen = Vec::new();
    for _ in 0..5 {
        spider.switch_movement_group();
        seen.push(spider.movement_group());
    }
    assert_eq!(seen, vec![1, 2, 1, 2, 1]);
}

#[test]
fn ideal_rest_point_is_anchor_plus_offset() {
    let mut leg = leg_with_error(Vec3::new(1.0, 1.0, 1.0), 2.0, 1);
    assert_eq!(leg.ideal_rest_point(), Vec3::new(5.0, 0.5, 1.0));
    leg.chain.move_start(Vec3::new(0.0, 0.0, 3.0));
    assert_eq!(leg.ideal_rest_point(), Vec3::new(5.0, 0.5, 4.0));
}

#[test]
fn leg_error_is_the_sum_of_the_distances_to_the_rest_points() {
    let mut spider = four_legs([3.0, 4.0, 0.5, 0.25]);
    update_leg_error(&mut spider);
    assert_eq!(spider.combined_leg_position_error(), FloatOrd(7.75));
    assert_eq!(spider.movement_group(), 2);
}

#[test]
fn leg_error_of_a_body_without_legs_is_zero() {
    let mut spider = Spider::new(Vec::new());
    update_leg_error(&mut spider);
    assert_eq!(spider.combined_leg_position_error(), FloatOrd(0.0));
    retarget_if_threshold_reached(&mut spider);
    assert_eq!(spider.movement_group(), 2);
}

#[test]
fn leg_error_follows_the_anchors() {
    let mut spider = four_legs([0.0; 4]);
    move_legs(&mut spider, Vec3::new(0.0, 0.0, 2.0));
    update_leg_error(&mut spider);
    assert_eq!(spider.combined_leg_position_error(), FloatOrd(8.0));
    for leg in spider.legs() {
        assert_eq!(leg.chain.points()[0] + Vec3::new(0.0, 0.0, 2.0), leg.chain.start());
    }
}

#[test]
fn nothing_is_retargeted_below_the_threshold() {
    let mut spider = four_legs([3.0, 3.0, 3.0, 2.0]);
    update_leg_error(&mut spider);
    assert_eq!(spider.combined_leg_position_error(), FloatOrd(11.0));
    retarget_if_threshold_reached(&mut spider);
    assert_eq!(spider.movement_group(), 2);
    for (leg, error) in spider.legs().iter().zip([3.0, 3.0, 3.0, 2.0]) {
        let target = animated(leg);
        assert_eq!(target.current_target, leg.chain.start() + OFFSET + Vec3::new(0.0, 0.0, error));
        assert_eq!(target.previous_target, target.current_target);
    }
}

#[test]
fn an_error_of_exactly_the_threshold_does_not_trigger() {
    let mut spider = four_legs([3.0, 3.0, 3.0, 3.0]);
    update_leg_error(&mut spider);
    assert_eq!(spider.combined_leg_position_error(), FloatOrd(12.0));
    retarget_if_threshold_reached(&mut spider);
    assert_eq!(spider.movement_group(), 2);
    assert_eq!(animated(&spider.legs()[0]).current_target, Vec3::new(4.0, 0.5, 3.0));
}

#[test]
fn crossing_the_threshold_retargets_only_the_new_group() {
    let mut spider = four_legs([4.0, 4.0, 4.0, 4.0]);
    update_leg_error(&mut spider);
    assert_eq!(spider.combined_leg_position_error(), FloatOrd(16.0));
    retarget_if_threshold_reached(&mut spider);
    assert_eq!(spider.movement_group(), 1);
    assert_eq!(spider.combined_leg_position_error(), FloatOrd(16.0));
    for leg in spider.legs() {
        let target = animated(leg);
        let rest_point = leg.chain.start() + OFFSET;
        if leg.movement_group == 1 {
            assert_eq!(target.current_target, rest_point);
            assert_eq!(target.previous_target, rest_point + Vec3::new(0.0, 0.0, 4.0));
            assert_eq!(target.lerp_fraction, FloatOrd(0.0));
        } else {
            assert_eq!(target.current_target, rest_point + Vec3::new(0.0, 0.0, 4.0));
            assert_eq!(target.previous_target, rest_point + Vec3::new(0.0, 0.0, 4.0));
        }
    }
}

#[test]
fn successive_crossings_alternate_between_the_groups() {
    let mut spider = four_legs([10.0, 10.0, 10.0, 10.0]);
    animate_legs(&mut spider, FloatOrd(1.0));
    let mut groups = Vec::new();
    for round in 0..4 {
        move_legs(&mut spider, Vec3::new(0.0, 0.0, -10.0));
        update_leg_error(&mut spider);
        let before: Vec<Vec3> = spider.legs().iter().map(|leg| animated(leg).current_target).collect();
        retarget_if_threshold_reached(&mut spider);
        groups.push(spider.movement_group());
        for (leg, old_target) in spider.legs().iter().zip(before) {
            let target = animated(leg);
            if leg.movement_group == spider.movement_group() {
                assert_eq!(target.current_target, leg.chain.start() + OFFSET);
                assert_eq!(target.previous_target, old_target);
                assert_eq!(target.lerp_fraction, FloatOrd(0.0));
            } else {
                assert_eq!(target.current_target, old_target);
                if round > 0 {
                    assert_eq!(target.lerp_fraction, FloatOrd(1.0));
                }
            }
        }
        animate_legs(&mut spider, FloatOrd(1.0));
    }
    assert_eq!(groups, vec![1, 2, 1, 2]);
}

#[test]
fn basic_legs_are_retargeted_at_once() {
    let anchor = Vec3::new(0.0, 1.0, 0.0);
    let chain = IkChain::new(vec![anchor, anchor + Vec3::Y, anchor + Vec3::X]);
    let far = anchor + OFFSET + Vec3::new(0.0, 0.0, 20.0);
    let mut spider = Spider::new(vec![SpiderLeg {
        chain,
        target: LegTarget::Basic(BasicLeg::new(OFFSET, far)),
        movement_group: 1,
    }]);
    update_leg_error(&mut spider);
    assert_eq!(spider.combined_leg_position_error(), FloatOrd(20.0));
    retarget_if_threshold_reached(&mut spider);
    assert_eq!(spider.movement_group(), 1);
    assert_eq!(spider.legs()[0].target.current_target(), anchor + OFFSET);
    assert_eq!(spider.legs()[0].target.target_for_tick(), anchor + OFFSET);
}

#[test]
fn retargeting_one_leg_sends_it_to_its_rest_point() {
    let mut leg = leg_with_error(Vec3::new(1.0, 0.0, 0.0), 5.0, 2);
    leg.retarget();
    assert_eq!(animated(&leg).current_target, Vec3::new(5.0, -0.5, 0.0));
    assert_eq!(animated(&leg).previous_target, Vec3::new(5.0, -0.5, 5.0));
    assert_eq!(leg.movement_group, 2);
}

#[test]
fn moving_the_legs_moves_every_anchor_and_no_joint() {
    let mut spider = four_legs([1.0; 4]);
    move_legs(&mut spider, Vec3::new(0.5, 0.0, -1.0));
    for (index, leg) in spider.legs().iter().enumerate() {
        let anchor = Vec3::new(0.0, 1.0, index as f32);
        assert_eq!(leg.chain.start(), anchor + Vec3::new(0.5, 0.0, -1.0));
        assert_eq!(leg.chain.points()[0], anchor);
        assert_eq!(animated(leg).current_target, anchor + OFFSET + Vec3::new(0.0, 0.0, 1.0));
    }
    assert_eq!(spider.movement_group(), 2);
}

#[test]
fn animating_the_legs_advances_and_solves_each_of_them() {
    let mut spider = four_legs([1.0; 4]);
    move_legs(&mut spider, Vec3::new(0.5, 0.0, 0.0));
    animate_legs(&mut spider, FloatOrd(0.125));
    for leg in spider.legs() {
        assert_eq!(animated(leg).lerp_fraction, FloatOrd(0.75));
        assert_eq!(leg.chain.points()[0], leg.chain.start());
    }
    assert_eq!(spider.movement_group(), 2);
    assert_eq!(spider.combined_leg_position_error(), FloatOrd(0.0));
}

#[test]
fn animating_one_leg_works_for_both_kinds() {
    let mut leg = leg_with_error(Vec3::ZERO, 0.0, 1);
    leg.animate(FloatOrd(0.0625));
    assert_eq!(animated(&leg).lerp_fraction, FloatOrd(0.375));
    let mut basic = SpiderLeg {
        chain: IkChain::new(vec![Vec3::ZERO, Vec3::Y, Vec3::X]),
        target: LegTarget::Basic(BasicLeg::new(OFFSET, Vec3::new(0.5, 0.5, 0.0))),
        movement_group: 2,
    };
    basic.chain.move_start(Vec3::new(0.0, 0.0, 0.25));
    basic.animate(FloatOrd(0.0625));
    assert_eq!(basic.chain.points()[0], Vec3::new(0.0, 0.0, 0.25));
    assert_eq!(basic.target.current_target(), Vec3::new(0.5, 0.5, 0.0));
}

#[test]
fn a_tick_takes_the_error_before_it_hands_out_targets() {
    // Three legs at rest. The body moves six units in one second-long tick,
    // so each leg is six units off: eighteen in all, above the threshold.
    let mut spider = Spider::new(vec![
        leg_with_error(Vec3::new(0.0, 1.0, 0.0), 0.0, 1),
        leg_with_error(Vec3::new(0.0, 1.0, 1.0), 0.0, 2),
        leg_with_error(Vec3::new(0.0, 1.0, 2.0), 0.0, 1),
    ]);
    let delta = simulate_tick(&mut spider, Vec3::new(0.0, 0.0, -1.0), FloatOrd(1.0));
    assert_eq!(delta, Vec3::new(0.0, 0.0, -6.0));
    assert_eq!(spider.combined_leg_position_error(), FloatOrd(18.0));
    assert_eq!(spider.movement_group(), 1);
    for (index, leg) in spider.legs().iter().enumerate() {
        let old_anchor = Vec3::new(0.0, 1.0, index as f32);
        let target = animated(leg);
        assert_eq!(leg.chain.start(), old_anchor + delta);
        assert_eq!(leg.chain.points()[0], leg.chain.start());
        assert_eq!(target.lerp_fraction, FloatOrd(1.0));
        if leg.movement_group == 1 {
            assert_eq!(target.current_target, old_anchor + delta + OFFSET);
            assert_eq!(target.previous_target, old_anchor + OFFSET);
        } else {
            assert_eq!(target.current_target, old_anchor + OFFSET);
        }
    }
}

#[test]
fn a_tick_below_the_threshold_keeps_the_group() {
    let mut spider = four_legs([0.0; 4]);
    let delta = simulate_tick(&mut spider, Vec3::new(1.0, 0.0, 0.0), FloatOrd(0.25));
    assert_eq!(delta, Vec3::new(1.5, 0.0, 0.0));
    assert_eq!(spider.combined_leg_position_error(), FloatOrd(6.0));
    assert_eq!(spider.movement_group(), 2);
    let still = simulate_tick(&mut spider, Vec3::ZERO, FloatOrd(0.25));
    assert_eq!(still, Vec3::ZERO);
    assert_eq!(spider.combined_leg_position_error(), FloatOrd(6.0));
}

#[test]
fn movement_keys_map_to_axes() {
    assert_eq!(movement_direction(true, false, false, false), Vec3::new(0.0, 0.0, -1.0));
    assert_eq!(movement_direction(false, true, false, false), Vec3::new(0.0, 0.0, 1.0));
    assert_eq!(movement_direction(false, false, true, false), Vec3::new(-1.0, 0.0, 0.0));
    assert_eq!(movement_direction(false, false, false, true), Vec3::new(1.0, 0.0, 0.0));
}

#[test]
fn opposite_movement_keys_cancel() {
    assert_eq!(movement_direction(false, false, false, false), Vec3::ZERO);
    assert_eq!(movement_direction(true, true, false, false), Vec3::ZERO);
    assert_eq!(movement_direction(true, true, true, true), Vec3::ZERO);
    assert_eq!(movement_direction(true, true, false, true), Vec3::new(1.0, 0.0, 0.0));
}

#[test]
fn diagonal_movement_has_length_one() {
    let direction = movement_direction(true, false, false, true);
    assert_eq!(direction, Vec3::new(1.0, 0.0, -1.0).normalize_or_zero());
    assert!((direction.length() - 1.0).abs() < 1e-6);
}

#[test]
fn body_displacement_is_input_times_seconds_times_speed() {
    assert_eq!(
        body_displacement(Vec3::new(1.0, 0.0, 0.0), FloatOrd(0.5)),
        Vec3::new(3.0, 0.0, 0.0)
    );
    let input = Vec3::new(1.0, 0.0, -1.0).normalize_or_zero();
    assert_eq!(body_displacement(input, FloatOrd(0.016)), input * 0.016 * 6.0);
}

#[test]
fn spawn_info_keeps_what_it_is_given() {
    let info = LegSpawnInfo::new(Vec3::new(0.5, 0.0, -0.8), FloatOrd(40.0), 1);
    assert_eq!(info.position_offset, Vec3::new(0.5, 0.0, -0.8));
    assert_eq!(info.angle_offset, FloatOrd(40.0));
    assert_eq!(info.movement_group, 1);
}

#[test]
fn a_leg_spawned_without_a_turn_is_the_base_leg_at_its_offset() {
    let base = vec![Vec3::new(0.0, 0.0, 0.0), Vec3::new(1.0, 3.0, 0.0), Vec3::new(2.0, 0.0, 0.0)];
    let body = Vec3::new(-2.0, 1.0, 2.0);
    let info = LegSpawnInfo::new(Vec3::new(0.5, 0.0, -0.5), FloatOrd(0.0), 2);
    let leg = spawn_leg(&base, body, OFFSET, &info);
    assert_eq!(
        leg.chain.points(),
        &vec![Vec3::new(-1.5, 1.0, 1.5), Vec3::new(-0.5, 4.0, 1.5), Vec3::new(0.5, 1.0, 1.5)]
    );
    assert_eq!(leg.chain.start(), Vec3::new(-1.5, 1.0, 1.5));
    assert_eq!(leg.movement_group, 2);
    let target = animated(&leg);
    assert_eq!(target.reposition_target_offset, OFFSET);
    assert_eq!(target.current_target, OFFSET);
    assert_eq!(target.previous_target, OFFSET);
    assert_eq!(target.lerp_fraction, FloatOrd(0.0));
}

#[test]
fn a_spawned_leg_is_turned_about_the_up_axis() {
    let base = vec![Vec3::new(0.0, 0.0, 0.0), Vec3::new(1.0, 3.0, 0.0), Vec3::new(2.0, 0.0, 0.0)];
    let body = Vec3::new(-2.0, 1.0, 2.0);
    let info = LegSpawnInfo::new(Vec3::new(0.5, 0.0, -0.8), FloatOrd(40.0), 1);
    let leg = spawn_leg(&base, body, OFFSET, &info);
    let rotation = Quat::from_axis_angle(Vec3::Y, 40.0f32.to_radians());
    for (point, base_point) in leg.chain.points().iter().zip(&base) {
        assert_eq!(*point, body + Vec3::new(0.5, 0.0, -0.8) + rotation * *base_point);
    }
    assert_eq!(animated(&leg).reposition_target_offset, rotation * OFFSET);
    assert_eq!(animated(&leg).current_target, base[0] + rotation * OFFSET);
    assert_eq!(leg.chain.get_segment(0).length.0, leg.chain.points()[0].distance(leg.chain.points()[1]));

    let quarter = spawn_leg(&base, Vec3::ZERO, OFFSET, &LegSpawnInfo::new(Vec3::ZERO, FloatOrd(90.0), 1));
    assert!(quarter.chain.points()[2].abs_diff_eq(Vec3::new(0.0, 0.0, -2.0), 1e-6));
}

#[test]
fn spawning_a_spider_makes_one_leg_per_entry() {
    let base = vec![Vec3::new(0.0, 0.0, 0.0), Vec3::new(1.0, 3.0, 0.0), Vec3::new(2.0, 0.0, 0.0)];
    let legs_data = vec![
        LegSpawnInfo::new(Vec3::new(0.5, 0.0, -0.8), FloatOrd(40.0), 1),
        LegSpawnInfo::new(Vec3::new(0.5, 0.0, -0.4), FloatOrd(10.0), 2),
        LegSpawnInfo::new(Vec3::new(-0.5, 0.0, 0.8), FloatOrd(220.0), 1),
    ];
    let legs = spawn_spider_legs(&base, Vec3::new(-2.0, 1.0, 2.0), OFFSET, &legs_data);
    assert_eq!(legs.len(), 3);
    assert_eq!(legs.iter().map(|leg| leg.movement_group).collect::<Vec<u8>>(), vec![1, 2, 1]);
    assert_eq!(legs[1].chain.start(), Vec3::new(-1.5, 1.0, 1.6));

    let spider = spawn_spider(&base, Vec3::new(-2.0, 1.0, 2.0), OFFSET, &legs_data);
    assert_eq!(spider.legs().len(), 3);
    assert_eq!(spider.movement_group(), 2);
    assert_eq!(spider.combined_leg_position_error(), FloatOrd(0.0));
    assert_eq!(spider.legs()[2].chain.points(), legs[2].chain.points());
    assert!(spawn_spider_legs(&base, Vec3::ZERO, OFFSET, &Vec::new()).is_empty());
}

#[test]
fn a_leg_piece_sits_halfway_along_its_segment() {
    let chain = IkChain::new(vec![
        Vec3::new(1.0, 1.0, 0.0),
        Vec3::new(1.0, 1.0, -4.0),
        Vec3::new(4.0, 1.0, -4.0),
    ]);
    let upper = position_leg_piece_on_chain(&chain, &LegPiece::new(0), Vec3::new(1.0, 0.0, 0.0));
    assert_eq!(upper.translation, Vec3::new(0.0, 1.0, -2.0));
    assert!(upper.rotation.abs_diff_eq(Quat::IDENTITY, 1e-6));
    let lower = position_leg_piece_on_chain(&chain, &LegPiece::new(1), Vec3::ZERO);
    assert_eq!(lower.translation, Vec3::new(2.5, 1.0, -4.0));
    assert!((lower.rotation * Vec3::NEG_Z).abs_diff_eq(Vec3::X, 1e-6));
}

#[test]
fn a_leg_piece_on_a_stretched_segment_keeps_to_the_rest_length() {
    let mut chain = IkChain::new(vec![Vec3::ZERO, Vec3::new(2.0, 0.0, 0.0), Vec3::new(4.0, 0.0, 0.0)]);
    spider_ik::fabrik::backward_fabrik_pass(&mut chain, Vec3::new(4.0, 3.0, 0.0));
    let piece = LegPiece::new(0);
    assert_eq!(piece.index_in_chain, 0);
    let segment = chain.get_segment(0);
    let direction = (segment.end - segment.start).normalize_or_zero();
    let placement = position_leg_piece_on_chain(&chain, &piece, Vec3::new(0.0, 1.0, 0.0));
    assert_eq!(
        placement.translation,
        segment.start + direction * segment.length.0 / 2.0 - Vec3::new(0.0, 1.0, 0.0)
    );
}
