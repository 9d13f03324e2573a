//! Placing the rigid pieces of a leg along the segments of its solved chain.
use crate::chain::IkChain;
use crate::math::{
    divide, minus, normalize_or_zero, plus, scalar_from_int, scalar_of, scale, vec3_difference,
    vec3_divided, vec3_from_ints, vec3_scaled, vec3_sum, vec3_unit_or_zero,
};
use crate::orientation::{look_rotation, rotation_towards, up_axis};
use bevy::math::{Quat, Vec3};
use vstd::prelude::*;

verus! {

/// A rigid piece of a leg, drawn along one segment of the leg's chain.
pub struct LegPiece {
    /// Which segment of the chain the piece lies along.
    pub index_in_chain: u8,
}

impl LegPiece {
    /// The piece that lies along segment `position_in_chain`.
    pub fn new(position_in_chain: u8) -> (piece: Self)
        ensures
            piece.index_in_chain == position_in_chain,
    {
        Self { index_in_chain: position_in_chain }
    }
}

/// Where a leg piece is drawn, relative to its parent.
pub struct PiecePlacement {
    pub translation: Vec3,
    pub rotation: Quat,
}

/// The unit direction of segment `index` of a chain as it is now.
pub open spec fn segment_direction(chain: IkChain, index: int) -> Vec3 {
    vec3_unit_or_zero(vec3_difference(chain.joints()[index + 1], chain.joints()[index]))
}

/// The point half a rest length along segment `index` from its start.
pub open spec fn segment_middle(chain: IkChain, index: int) -> Vec3 {
    vec3_sum(
        chain.joints()[index],
        vec3_divided(vec3_scaled(segment_direction(chain, index), chain.rests()[index]), scalar_of(2)),
    )
}

/// Where the piece of a leg lies: halfway along its segment, seen from the
/// parent at `parent_translation`, and turned to face along the segment.
pub fn position_leg_piece_on_chain(
    chain: &IkChain,
    piece: &LegPiece,
    parent_translation: Vec3,
) -> (placement: PiecePlacement)
    requires
        piece.index_in_chain + 1 < chain.joints().len(),
    ensures
        placement.translation == vec3_difference(
            segment_middle(*chain, piece.index_in_chain as int),
            parent_translation,
        ),
        placement.rotation == look_rotation(
            segment_direction(*chain, piece.index_in_chain as int),
            up_axis(),
        ),
{
    let segment = chain.get_segment(piece.index_in_chain as usize);

    let segment_direction = normalize_or_zero(minus(segment.end, segment.start));
    let segment_orientation = rotation_towards(segment_direction, vec3_from_ints(0, 1, 0));
    let segment_middle = plus(
        segment.start,
        divide(scale(segment_direction, segment.length), scalar_from_int(2)),
    );

    PiecePlacement {
        translation: minus(segment_middle, parent_translation),
        rotation: segment_orientation,
    }
}

} // verus!
