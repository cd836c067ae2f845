//! The scene: four compound shapes, each a fixed boolean combination of
//! box and cylinder distances, and the choice of the closest of them.
//!
//! The distances to the single boxes and cylinders are measured by the
//! caller, each in its own local frame. This module combines them, tags
//! each compound with its material and selects the nearest.

use vstd::prelude::*;
use crate::combine::{
    inside,
    lemma_subtraction_membership,
    lemma_union_membership,
    op_subtraction,
    op_union,
    outside,
    spec_subtraction,
    spec_union,
};
use crate::scalar::Scalar;

verus! {

/// Material of a point that belongs to no compound.
pub const BACKGROUND: usize = 0;

/// Material of the chevron.
pub const CHEVRON: usize = 1;

/// Material of the notched ring.
pub const NOTCHED_RING: usize = 2;

/// Material of the first arch.
pub const FIRST_ARCH: usize = 3;

/// Material of the second arch.
pub const SECOND_ARCH: usize = 4;

/// The pattern of `6.0`: the distance beyond which a point is answered
/// with the background.
pub const HORIZON_BITS: u64 = 0x4018_0000_0000_0000;

/// A distance together with the material it was measured to.
#[derive(Clone, Copy, Debug, PartialEq, Eq, Structural)]
pub struct Sample {
    pub distance: Scalar,
    pub material: usize,
}

/// Distances to the parts of the chevron: two slanted boxes and the
/// cylinder that joins them.
#[derive(Clone, Copy, Debug)]
pub struct ChevronParts {
    pub first_arm: Scalar,
    pub second_arm: Scalar,
    pub hinge: Scalar,
}

/// Distances to the parts of the notched ring: the cylinder that bounds
/// it, the bore drilled through it, the box and the wedge that shape the
/// notch, and the crossbar.
#[derive(Clone, Copy, Debug)]
pub struct RingParts {
    pub bore: Scalar,
    pub rim: Scalar,
    pub notch_box: Scalar,
    pub notch_wedge: Scalar,
    pub crossbar: Scalar,
}

/// Distances to the parts of an arch: the cylinder that bounds it, the
/// bore drilled through it, the box that cuts half of the ring away, and
/// the two legs.
#[derive(Clone, Copy, Debug)]
pub struct ArchParts {
    pub bore: Scalar,
    pub rim: Scalar,
    pub cut: Scalar,
    pub long_leg: Scalar,
    pub short_leg: Scalar,
}

/// Distances from one point to every part of the scene.
#[derive(Clone, Copy, Debug)]
pub struct SceneParts {
    pub chevron: ChevronParts,
    pub ring: RingParts,
    pub first_arch: ArchParts,
    pub second_arch: ArchParts,
}

/// The background sample that the selection starts from.
pub open spec fn horizon() -> Sample {
    Sample { distance: Scalar { bits: HORIZON_BITS }, material: BACKGROUND }
}

/// Distance to the chevron: the union of its three parts.
pub open spec fn chevron_distance(p: ChevronParts) -> Scalar {
    spec_union(spec_union(p.first_arm, p.second_arm), p.hinge)
}

/// Distance to the notched ring: the rim without the bore, without what
/// of the wedge lies outside the box, joined with the crossbar.
pub open spec fn ring_distance(p: RingParts) -> Scalar {
    let ring = spec_subtraction(p.bore, p.rim);
    let notch = spec_subtraction(p.notch_box, p.notch_wedge);
    spec_union(spec_subtraction(notch, ring), p.crossbar)
}

/// Distance to an arch: the rim without the bore and without the cut,
/// joined with the long leg and then with the short one.
pub open spec fn arch_distance(p: ArchParts) -> Scalar {
    let ring = spec_subtraction(p.bore, p.rim);
    let half = spec_subtraction(p.cut, ring);
    spec_union(p.short_leg, spec_union(p.long_leg, half))
}

/// The four compounds in the order of their materials.
pub open spec fn compounds(p: SceneParts) -> Seq<Sample> {
    seq![
        Sample { distance: chevron_distance(p.chevron), material: CHEVRON },
        Sample { distance: ring_distance(p.ring), material: NOTCHED_RING },
        Sample { distance: arch_distance(p.first_arch), material: FIRST_ARCH },
        Sample { distance: arch_distance(p.second_arch), material: SECOND_ARCH },
    ]
}

/// One step of the selection: the running sample stays while its distance
/// is at most the candidate's, and gives way otherwise. A candidate at an
/// equal distance does not replace it; one that cannot be compared does.
pub open spec fn closer(running: Sample, candidate: Sample) -> Sample {
    if running.distance.spec_le(candidate.distance) {
        running
    } else {
        candidate
    }
}

/// The selection over a sequence of candidates, from left to right.
pub open spec fn nearest_of(start: Sample, candidates: Seq<Sample>) -> Sample
    decreases candidates.len(),
{
    if candidates.len() == 0 {
        start
    } else {
        closer(nearest_of(start, candidates.drop_last()), candidates.last())
    }
}

/// `r` is the first minimum of `start` followed by `candidates`: no
/// distance among them is smaller than that of `r`, and `r` is the
/// earliest that is as small.
pub open spec fn is_first_minimum(start: Sample, candidates: Seq<Sample>, r: Sample) -> bool {
    &&& r.distance.rank() <= start.distance.rank()
    &&& forall|i: int|
        0 <= i < candidates.len() ==> r.distance.rank() <= (#[trigger] candidates[i]).distance.rank()
    &&& r.distance.rank() == start.distance.rank() ==> r == start
    &&& r.distance.rank() < start.distance.rank() ==> exists|j: int|
        {
            &&& 0 <= j < candidates.len()
            &&& #[trigger] candidates[j] == r
            &&& forall|i: int|
                0 <= i < j ==> r.distance.rank() < (#[trigger] candidates[i]).distance.rank()
        }
}

/// Where every distance is a number, the selection returns the first
/// minimum: the closest sample, and on a tie the one that came first.
pub proof fn lemma_nearest_is_first_minimum(start: Sample, candidates: Seq<Sample>)
    requires
        !start.distance.is_nan(),
        forall|i: int| 0 <= i < candidates.len() ==> !(#[trigger] candidates[i]).distance.is_nan(),
    ensures
        !nearest_of(start, candidates).distance.is_nan(),
        is_first_minimum(start, candidates, nearest_of(start, candidates)),
    decreases candidates.len(),
{
    if candidates.len() > 0 {
        let front = candidates.drop_last();
        let last = candidates.last();
        let before = nearest_of(start, front);
        let r = nearest_of(start, candidates);
        assert forall|i: int| 0 <= i < front.len() implies !(#[trigger] front[i]).distance.is_nan() by {
            assert(front[i] == candidates[i]);
        }
        lemma_nearest_is_first_minimum(start, front);
        assert(r == closer(before, last));
        assert forall|i: int| 0 <= i < candidates.len() implies r.distance.rank() <= (
        #[trigger] candidates[i]).distance.rank() by {
            if i < front.len() {
                assert(front[i] == candidates[i]);
            }
        }
        if r.distance.rank() < start.distance.rank() {
            if before.distance.spec_le(last.distance) {
                let j = choose|j: int|
                    {
                        &&& 0 <= j < front.len()
                        &&& #[trigger] front[j] == before
                        &&& forall|i: int|
                            0 <= i < j ==> before.distance.rank() < (#[trigger] front[i]).distance.rank()
                    };
                assert(candidates[j] == r);
                assert forall|i: int| 0 <= i < j implies r.distance.rank() < (
                #[trigger] candidates[i]).distance.rank() by {
                    assert(front[i] == candidates[i]);
                }
            } else {
                let j = candidates.len() - 1;
                assert(candidates[j] == r);
                assert forall|i: int| 0 <= i < j implies r.distance.rank() < (
                #[trigger] candidates[i]).distance.rank() by {
                    assert(front[i] == candidates[i]);
                }
            }
        }
    }
}

/// The scene answers with the background exactly when no compound is
/// nearer than the horizon, and otherwise with the first of the nearest
/// compounds, provided that every compound's distance is a number.
pub proof fn lemma_scene_answer(parts: SceneParts)
    requires
        forall|i: int| 0 <= i < 4 ==> !(#[trigger] compounds(parts)[i]).distance.is_nan(),
    ensures
        is_first_minimum(horizon(), compounds(parts), nearest_of(horizon(), compounds(parts))),
        nearest_of(horizon(), compounds(parts)).material == BACKGROUND <==> forall|i: int|
            0 <= i < 4 ==> horizon().distance.rank() <= (#[trigger] compounds(parts)[i]).distance.rank(),
        nearest_of(horizon(), compounds(parts)).material <= SECOND_ARCH,
{
    lemma_nearest_is_first_minimum(horizon(), compounds(parts));
}

impl ChevronParts {
    /// Every distance is a number.
    pub open spec fn is_numeric(self) -> bool {
        !self.first_arm.is_nan() && !self.second_arm.is_nan() && !self.hinge.is_nan()
    }
}

impl RingParts {
    /// Every distance is a number.
    pub open spec fn is_numeric(self) -> bool {
        &&& !self.bore.is_nan()
        &&& !self.rim.is_nan()
        &&& !self.notch_box.is_nan()
        &&& !self.notch_wedge.is_nan()
        &&& !self.crossbar.is_nan()
    }
}

impl ArchParts {
    /// Every distance is a number.
    pub open spec fn is_numeric(self) -> bool {
        &&& !self.bore.is_nan()
        &&& !self.rim.is_nan()
        &&& !self.cut.is_nan()
        &&& !self.long_leg.is_nan()
        &&& !self.short_leg.is_nan()
    }
}

/// A point is inside the chevron exactly when it is inside one of the
/// arms or the hinge.
pub proof fn lemma_chevron_membership(p: ChevronParts)
    ensures
        inside(chevron_distance(p)) <==> inside(p.first_arm) || inside(p.second_arm) || inside(
            p.hinge,
        ),
        p.is_numeric() ==> !chevron_distance(p).is_nan(),
{
    lemma_union_membership(p.first_arm, p.second_arm);
    lemma_union_membership(spec_union(p.first_arm, p.second_arm), p.hinge);
}

/// A point is inside the notched ring exactly when it is inside the
/// crossbar, or inside the rim and outside the bore and not in the notch:
/// the notch is what of the wedge lies outside the box, its surface
/// included.
pub proof fn lemma_ring_membership(p: RingParts)
    requires
        p.is_numeric(),
    ensures
        !ring_distance(p).is_nan(),
        inside(ring_distance(p)) <==> inside(p.crossbar) || (inside(p.rim) && outside(p.bore) && (
        inside(p.notch_box) || outside(p.notch_wedge))),
{
    let ring = spec_subtraction(p.bore, p.rim);
    let notch = spec_subtraction(p.notch_box, p.notch_wedge);
    lemma_subtraction_membership(p.bore, p.rim);
    lemma_subtraction_membership(p.notch_box, p.notch_wedge);
    lemma_subtraction_membership(notch, ring);
    lemma_union_membership(spec_subtraction(notch, ring), p.crossbar);
}

/// A point is inside an arch exactly when it is inside one of the legs,
/// or inside the rim and outside both the bore and the cut.
pub proof fn lemma_arch_membership(p: ArchParts)
    requires
        p.is_numeric(),
    ensures
        !arch_distance(p).is_nan(),
        inside(arch_distance(p)) <==> inside(p.short_leg) || inside(p.long_leg) || (inside(p.rim)
            && outside(p.bore) && outside(p.cut)),
{
    let ring = spec_subtraction(p.bore, p.rim);
    let half = spec_subtraction(p.cut, ring);
    lemma_subtraction_membership(p.bore, p.rim);
    lemma_subtraction_membership(p.cut, ring);
    lemma_union_membership(p.long_leg, half);
    lemma_union_membership(p.short_leg, spec_union(p.long_leg, half));
}

/// A point inside one of the compounds is never answered with the
/// background: the scene reports a compound and a distance below zero.
pub proof fn lemma_inside_is_no_background(parts: SceneParts, i: int)
    requires
        forall|k: int| 0 <= k < 4 ==> !(#[trigger] compounds(parts)[k]).distance.is_nan(),
        0 <= i < 4,
        inside(compounds(parts)[i].distance),
    ensures
        nearest_of(horizon(), compounds(parts)).material != BACKGROUND,
        inside(nearest_of(horizon(), compounds(parts)).distance),
{
    lemma_scene_answer(parts);
    assert(horizon().distance.rank() > 0);
}

/// Distance to the chevron.
pub fn chevron(p: &ChevronParts) -> (r: Scalar)
    ensures
        r == chevron_distance(*p),
{
    op_union(op_union(p.first_arm, p.second_arm), p.hinge)
}

/// Distance to the notched ring.
pub fn notched_ring(p: &RingParts) -> (r: Scalar)
    ensures
        r == ring_distance(*p),
{
    let ring = op_subtraction(p.bore, p.rim);
    let notch = op_subtraction(p.notch_box, p.notch_wedge);
    op_union(op_subtraction(notch, ring), p.crossbar)
}

/// Distance to an arch.
pub fn arch(p: &ArchParts) -> (r: Scalar)
    ensures
        r == arch_distance(*p),
{
    let ring = op_subtraction(p.bore, p.rim);
    let half = op_subtraction(p.cut, ring);
    op_union(p.short_leg, op_union(p.long_leg, half))
}

/// The closest of `candidates`, starting from `start`: the fold of
/// `closer` from left to right.
pub fn nearest(start: Sample, candidates: &Vec<Sample>) -> (r: Sample)
    ensures
        r == nearest_of(start, candidates@),
{
    let mut running = start;
    let mut i: usize = 0;
    while i < candidates.len()
        invariant
            i <= candidates.len(),
            running == nearest_of(start, candidates@.take(i as int)),
        decreases candidates.len() - i,
    {
        let candidate = candidates[i];
        proof {
            let next = candidates@.take(i + 1);
            assert(next.drop_last() =~= candidates@.take(i as int));
            assert(next.last() == candidate);
        }
        if !running.distance.le(candidate.distance) {
            running = candidate;
        }
        i = i + 1;
    }
    proof {
        assert(candidates@.take(i as int) =~= candidates@);
    }
    running
}

/// Distance and material of the scene at the point that `parts` was
/// measured from: the closest of the four compounds, or the background at
/// the horizon where none of them is nearer than that.
pub fn find_distance(parts: &SceneParts) -> (r: Sample)
    ensures
        r == nearest_of(horizon(), compounds(*parts)),
{
    let mut candidates: Vec<Sample> = Vec::new();
    candidates.push(Sample { distance: chevron(&parts.chevron), material: CHEVRON });
    candidates.push(Sample { distance: notched_ring(&parts.ring), material: NOTCHED_RING });
    candidates.push(Sample { distance: arch(&parts.first_arch), material: FIRST_ARCH });
    candidates.push(Sample { distance: arch(&parts.second_arch), material: SECOND_ARCH });
    proof {
        assert(candidates@ =~= compounds(*parts));
    }
    let start = Sample { distance: Scalar::from_bits(HORIZON_BITS), material: BACKGROUND };
    nearest(start, &candidates)
}

} // verus!
