//! The chain of points that the solver works on.
use crate::math::{distance, plus, vec3_distance, vec3_sum};
use bevy::math::Vec3;
use bevy::utils::FloatOrd;
use vstd::prelude::*;

verus! {

/// The rest lengths of a sequence of points: the distance from each point to the next.
pub open spec fn rest_lengths(points: Seq<Vec3>) -> Seq<FloatOrd> {
    Seq::new(
        if points.len() == 0 { 0 } else { (points.len() - 1) as nat },
        |i: int| vec3_distance(points[i], points[i + 1]),
    )
}

/// An ordered chain of joints, anchored at `start`, with one fixed rest length
/// for each pair of neighbouring joints.
pub struct IkChain {
    start: Vec3,
    points: Vec<Vec3>,
    lengths: Vec<FloatOrd>,
}

/// One segment of a chain: its two end points as they are now, and its rest length.
pub struct ChainSegment {
    pub start: Vec3,
    pub end: Vec3,
    pub length: FloatOrd,
}

impl IkChain {
    #[verifier::type_invariant]
    spec fn shape(self) -> bool {
        &&& self.points@.len() >= 2
        &&& self.lengths@.len() + 1 == self.points@.len()
    }

    /// The anchor of the chain.
    pub closed spec fn anchor(&self) -> Vec3 {
        self.start
    }

    /// The joints of the chain, anchor end first, effector last.
    pub closed spec fn joints(&self) -> Seq<Vec3> {
        self.points@
    }

    /// The rest length of each segment.
    pub closed spec fn rests(&self) -> Seq<FloatOrd> {
        self.lengths@
    }

    /// The chain with its anchor moved by `delta` and its joints left behind.
    pub closed spec fn moved_by(self, delta: Vec3) -> Self {
        IkChain { start: vec3_sum(self.start, delta), points: self.points, lengths: self.lengths }
    }

    /// Moving the anchor changes the anchor and nothing else.
    pub proof fn lemma_moved_by(self, delta: Vec3)
        ensures
            self.moved_by(delta).anchor() == vec3_sum(self.anchor(), delta),
            self.moved_by(delta).joints() == self.joints(),
            self.moved_by(delta).rests() == self.rests(),
    {
    }

    /// Whether the chain has at least two joints and one rest length per segment.
    /// Every chain that executable code can hold is well formed.
    pub open spec fn well_formed(&self) -> bool {
        &&& self.joints().len() >= 2
        &&& self.rests().len() + 1 == self.joints().len()
    }

    /// Builds a chain from its initial joints. The anchor is the first joint,
    /// and each rest length is the distance between two neighbours.
    pub fn new(points: Vec<Vec3>) -> (chain: Self)
        requires
            points@.len() >= 2,
        ensures
            chain.well_formed(),
            chain.joints() == points@,
            chain.anchor() == points@[0],
            chain.rests() == rest_lengths(points@),
    {
        let lengths = calculate_chain_lengths(&points);
        let start = points[0];
        IkChain { start, points, lengths }
    }

    /// The number of joints.
    pub fn point_count(&self) -> (n: usize)
        ensures
            self.well_formed(),
            n == self.joints().len(),
    {
        proof {
            use_type_invariant(self);
        }
        self.points.len()
    }

    /// The anchor of the chain.
    pub fn start(&self) -> (p: Vec3)
        ensures
            p == self.anchor(),
    {
        self.start
    }

    /// The joints, anchor end first, for drawing and for placing what hangs on the chain.
    pub fn points(&self) -> (points: &Vec<Vec3>)
        ensures
            points@ == self.joints(),
    {
        &self.points
    }

    /// The joint at `index`.
    pub fn point(&self, index: usize) -> (p: Vec3)
        requires
            index < self.joints().len(),
        ensures
            p == self.joints()[index as int],
    {
        self.points[index]
    }

    /// Puts the joint at `index` at `position`, leaving everything else as it is.
    pub(crate) fn set_point(&mut self, index: usize, position: Vec3)
        requires
            index < old(self).joints().len(),
        ensures
            final(self).joints() == old(self).joints().update(index as int, position),
            final(self).anchor() == old(self).anchor(),
            final(self).rests() == old(self).rests(),
    {
        proof {
            use_type_invariant(&*self);
        }
        self.points[index] = position;
    }

    /// Moves the anchor by `delta`. The joints stay where they are until the
    /// chain is next solved.
    pub fn move_start(&mut self, delta: Vec3)
        ensures
            *final(self) == old(self).moved_by(delta),
            final(self).anchor() == vec3_sum(old(self).anchor(), delta),
            final(self).joints() == old(self).joints(),
            final(self).rests() == old(self).rests(),
    {
        proof {
            use_type_invariant(&*self);
        }
        self.start = plus(self.start, delta);
    }

    /// The segment from joint `index` to joint `index + 1`.
    pub fn get_segment(&self, index: usize) -> (segment: ChainSegment)
        requires
            index + 1 < self.joints().len(),
        ensures
            segment.start == self.joints()[index as int],
            segment.end == self.joints()[index + 1],
            segment.length == self.rests()[index as int],
    {
        proof {
            use_type_invariant(self);
        }
        let count = self.points.len();
        assert(index + 1 < count);
        ChainSegment {
            start: self.points[index],
            end: self.points[index + 1],
            length: self.lengths[index],
        }
    }
}

/// The distance from each point to the next, in order.
pub fn calculate_chain_lengths(points: &Vec<Vec3>) -> (lengths: Vec<FloatOrd>)
    requires
        points@.len() >= 1,
    ensures
        lengths@ == rest_lengths(points@),
{
    let mut lengths: Vec<FloatOrd> = Vec::new();
    let mut index: usize = 0;
    while index < points.len() - 1
        invariant
            points@.len() >= 1,
            index <= points@.len() - 1,
            lengths@.len() == index,
            forall|i: int| 0 <= i < index ==> lengths@[i] == vec3_distance(points@[i], points@[i + 1]),
        decreases points@.len() - index,
    {
        let start = points[index];
        let end = points[index + 1];
        lengths.push(distance(start, end));
        index += 1;
    }
    assert(lengths@ =~= rest_lengths(points@));
    lengths
}

} // verus!
