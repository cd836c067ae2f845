//! The selecting half of the box and cylinder distance functions.
//!
//! Both shapes measure a point by its offsets from the faces: negative
//! towards the inside, positive towards the outside. The distance is the
//! sum of two terms. The inner term is the largest offset where the point
//! is inside and zero elsewhere. The outer term is the length of the
//! offsets with the negative ones set to zero. This module selects both
//! terms from the offsets; taking the length and the sum is arithmetic
//! and left to the caller.

use vstd::prelude::*;
use crate::scalar::Scalar;
use crate::vector::{max, spec_max, Vec3};

verus! {

/// The pattern of `1.0`.
pub const ONE_BITS: u64 = 0x3ff0_0000_0000_0000;

/// The two terms of a box distance.
#[derive(Clone, Copy, Debug, PartialEq, Eq, Structural)]
pub struct BoxTerms {
    /// The largest offset, at most zero.
    pub inner: Scalar,
    /// The offsets with everything below zero at zero. The distance adds
    /// the length of this vector to `inner`.
    pub outer: Vec3,
}

/// The two terms of a cylinder distance.
#[derive(Clone, Copy, Debug, PartialEq, Eq, Structural)]
pub struct CylTerms {
    /// The larger offset, at most zero.
    pub inner: Scalar,
    /// The radial offset, at least zero.
    pub outer_radial: Scalar,
    /// The axial offset, at least zero.
    pub outer_axial: Scalar,
}

/// The terms of a box distance from the offsets `q`: the smaller of the
/// largest offset and zero, and the larger of `q` and zero by components.
pub open spec fn spec_box_terms(q: Vec3) -> BoxTerms {
    BoxTerms {
        inner: q.spec_largest().spec_min(Scalar { bits: 0 }),
        outer: spec_max(q, Vec3::spec_zero()),
    }
}

/// The terms of a cylinder distance from the radial and axial offsets.
pub open spec fn spec_cyl_terms(radial: Scalar, axial: Scalar) -> CylTerms {
    CylTerms {
        inner: radial.spec_max(axial).spec_min(Scalar { bits: 0 }),
        outer_radial: radial.spec_max(Scalar { bits: 0 }),
        outer_axial: axial.spec_max(Scalar { bits: 0 }),
    }
}

/// What a transformed point is divided by: the homogeneous coordinate
/// `w`, and one in place of a `w` that is zero.
pub open spec fn spec_homogeneous_divisor(w: Scalar) -> Scalar {
    if w.spec_is_zero() {
        Scalar { bits: ONE_BITS }
    } else {
        w
    }
}

/// The terms of a box distance from the offsets `q`, the point's distance
/// from the centre less the half extent along each axis.
pub fn box_terms(q: Vec3) -> (r: BoxTerms)
    ensures
        r == spec_box_terms(q),
{
    BoxTerms { inner: q.largest().min(Scalar::from_bits(0)), outer: max(q, Vec3::zero()) }
}

/// The terms of a cylinder distance from the radial and axial offsets.
pub fn cyl_terms(radial: Scalar, axial: Scalar) -> (r: CylTerms)
    ensures
        r == spec_cyl_terms(radial, axial),
{
    let zero = Scalar::from_bits(0);
    CylTerms {
        inner: radial.max(axial).min(zero),
        outer_radial: radial.max(zero),
        outer_axial: axial.max(zero),
    }
}

/// What a transformed point is divided by. The result is never zero.
pub fn homogeneous_divisor(w: Scalar) -> (r: Scalar)
    ensures
        r == spec_homogeneous_divisor(w),
        !r.spec_is_zero(),
{
    if w.is_zero() {
        Scalar::from_bits(ONE_BITS)
    } else {
        w
    }
}

/// The terms of a box keep their signs: the inner one is at most zero and
/// the outer ones are at least zero.
pub proof fn lemma_box_terms_signs(q: Vec3)
    requires
        q.is_numeric(),
    ensures
        !spec_box_terms(q).inner.is_nan(),
        spec_box_terms(q).inner.rank() <= 0,
        spec_box_terms(q).outer.is_numeric(),
        spec_box_terms(q).outer.0.rank() >= 0,
        spec_box_terms(q).outer.1.rank() >= 0,
        spec_box_terms(q).outer.2.rank() >= 0,
{
}

/// For a point in the box or on its surface the outer term vanishes and
/// the inner term is the largest offset. On a corner, where every offset
/// is zero, both terms are zero.
pub proof fn lemma_box_terms_within(q: Vec3)
    requires
        q.is_numeric(),
        q.0.rank() <= 0,
        q.1.rank() <= 0,
        q.2.rank() <= 0,
    ensures
        spec_box_terms(q).outer.0.spec_is_zero(),
        spec_box_terms(q).outer.1.spec_is_zero(),
        spec_box_terms(q).outer.2.spec_is_zero(),
        spec_box_terms(q).inner.rank() == q.spec_largest().rank(),
        q.0.spec_is_zero() && q.1.spec_is_zero() && q.2.spec_is_zero() ==> spec_box_terms(
            q,
        ).inner.spec_is_zero(),
{
}

/// For a point off the box along some axis the inner term vanishes, and
/// the outer term keeps exactly the offsets above zero.
pub proof fn lemma_box_terms_beyond(q: Vec3)
    requires
        q.is_numeric(),
        q.0.rank() > 0 || q.1.rank() > 0 || q.2.rank() > 0,
    ensures
        spec_box_terms(q).inner.spec_is_zero(),
        spec_box_terms(q).outer.0.rank() == if q.0.rank() > 0 {
            q.0.rank()
        } else {
            0
        },
        spec_box_terms(q).outer.1.rank() == if q.1.rank() > 0 {
            q.1.rank()
        } else {
            0
        },
        spec_box_terms(q).outer.2.rank() == if q.2.rank() > 0 {
            q.2.rank()
        } else {
            0
        },
{
}

/// The terms of a cylinder keep their signs, and one side always
/// vanishes: the outer terms for a point within, the inner term for a
/// point beyond.
pub proof fn lemma_cyl_terms_signs(radial: Scalar, axial: Scalar)
    requires
        !radial.is_nan(),
        !axial.is_nan(),
    ensures
        !spec_cyl_terms(radial, axial).inner.is_nan(),
        spec_cyl_terms(radial, axial).inner.rank() <= 0,
        spec_cyl_terms(radial, axial).outer_radial.rank() >= 0,
        spec_cyl_terms(radial, axial).outer_axial.rank() >= 0,
        radial.rank() <= 0 && axial.rank() <= 0 ==> spec_cyl_terms(
            radial,
            axial,
        ).outer_radial.spec_is_zero() && spec_cyl_terms(radial, axial).outer_axial.spec_is_zero()
            && spec_cyl_terms(radial, axial).inner.rank() == if radial.rank() < axial.rank() {
            axial.rank()
        } else {
            radial.rank()
        },
        radial.rank() > 0 || axial.rank() > 0 ==> spec_cyl_terms(
            radial,
            axial,
        ).inner.spec_is_zero(),
{
}

} // verus!
