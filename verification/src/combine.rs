//! Combinators that merge two signed distances into one.
//!
//! A signed distance is negative inside a shape, zero on its surface and
//! positive outside. The combinators select among their arguments, so the
//! result is always one of the patterns handed in, possibly negated.

use vstd::prelude::*;
use crate::scalar::Scalar;

verus! {

/// Distance to the union of two shapes: the smaller distance.
pub open spec fn spec_union(a: Scalar, b: Scalar) -> Scalar {
    a.spec_min(b)
}

/// Distance to `dest` with `src` carved out of it: the larger of the
/// negated `src` and `dest`.
pub open spec fn spec_subtraction(src: Scalar, dest: Scalar) -> Scalar {
    src.spec_neg().spec_max(dest)
}

/// Distance to the intersection of two shapes: the larger distance.
pub open spec fn spec_intersection(src: Scalar, dest: Scalar) -> Scalar {
    src.spec_max(dest)
}

/// `a` limited to the interval from `min` to `max`: the larger of `min`
/// and the smaller of `max` and `a`.
pub open spec fn spec_clamp(a: Scalar, min: Scalar, max: Scalar) -> Scalar {
    min.spec_max(max.spec_min(a))
}

/// The point a distance was measured from lies strictly inside the shape.
pub open spec fn inside(d: Scalar) -> bool {
    !d.is_nan() && d.rank() < 0
}

/// The point a distance was measured from lies strictly outside the shape.
pub open spec fn outside(d: Scalar) -> bool {
    !d.is_nan() && d.rank() > 0
}

/// Distance to the union of two shapes.
pub fn op_union(a: Scalar, b: Scalar) -> (r: Scalar)
    ensures
        r == spec_union(a, b),
{
    a.min(b)
}

/// Distance to `dest` with `src` carved out of it. The order of the
/// arguments matters.
pub fn op_subtraction(src: Scalar, dest: Scalar) -> (r: Scalar)
    ensures
        r == spec_subtraction(src, dest),
{
    src.neg().max(dest)
}

/// Distance to the intersection of two shapes.
pub fn op_intersection(src: Scalar, dest: Scalar) -> (r: Scalar)
    ensures
        r == spec_intersection(src, dest),
{
    src.max(dest)
}

/// `a` limited to the interval from `min` to `max`.
pub fn clamp(a: Scalar, min: Scalar, max: Scalar) -> (r: Scalar)
    ensures
        r == spec_clamp(a, min, max),
{
    min.max(max.min(a))
}

/// Negation flips the sign bit and nothing else: it turns the rank
/// around, keeps what is not a number so, and undoes itself.
pub proof fn lemma_neg_mirrors(a: Scalar)
    ensures
        a.spec_neg().spec_neg() == a,
        a.spec_neg().is_nan() == a.is_nan(),
        a.spec_neg().magnitude() == a.magnitude(),
        a.spec_neg().rank() == -a.rank(),
{
}

/// A union is exactly one of its two arguments.
pub proof fn lemma_union_selects(a: Scalar, b: Scalar)
    ensures
        spec_union(a, b) == a || spec_union(a, b) == b,
{
}

/// The union of two numbers is a number no larger than either, and as
/// small as the smaller of them.
pub proof fn lemma_union_is_least(a: Scalar, b: Scalar)
    requires
        !a.is_nan(),
        !b.is_nan(),
    ensures
        !spec_union(a, b).is_nan(),
        spec_union(a, b).spec_le(a),
        spec_union(a, b).spec_le(b),
        spec_union(a, b).rank() == if a.rank() <= b.rank() {
            a.rank()
        } else {
            b.rank()
        },
{
}

/// The intersection of two numbers is a number no smaller than either.
pub proof fn lemma_intersection_is_greatest(a: Scalar, b: Scalar)
    requires
        !a.is_nan(),
        !b.is_nan(),
    ensures
        !spec_intersection(a, b).is_nan(),
        a.spec_le(spec_intersection(a, b)),
        b.spec_le(spec_intersection(a, b)),
        spec_intersection(a, b) == a || spec_intersection(a, b) == b,
{
}

/// Flipping the sign of what is carved turns a subtraction into an
/// intersection, and the other way round.
pub proof fn lemma_subtraction_sign_flip(src: Scalar, dest: Scalar)
    ensures
        spec_subtraction(src.spec_neg(), dest) == spec_intersection(src, dest),
        spec_intersection(src.spec_neg(), dest) == spec_subtraction(src, dest),
{
    lemma_neg_mirrors(src);
}

/// A point is inside a union exactly when it is inside one of the two
/// shapes, whatever the two patterns are; where both are numbers, it is
/// outside the union exactly when it is outside both.
pub proof fn lemma_union_membership(a: Scalar, b: Scalar)
    ensures
        inside(spec_union(a, b)) <==> inside(a) || inside(b),
        !a.is_nan() && !b.is_nan() ==> !spec_union(a, b).is_nan() && (outside(spec_union(a, b))
            <==> outside(a) && outside(b)),
{
}

/// A point is inside an intersection of two numbers exactly when it is
/// inside both shapes, and outside it when it is outside one of them.
pub proof fn lemma_intersection_membership(a: Scalar, b: Scalar)
    requires
        !a.is_nan(),
        !b.is_nan(),
    ensures
        !spec_intersection(a, b).is_nan(),
        inside(spec_intersection(a, b)) <==> inside(a) && inside(b),
        outside(spec_intersection(a, b)) <==> outside(a) || outside(b),
{
}

/// A point is inside a subtraction of two numbers exactly when it is
/// inside the base and outside what was carved from it, and outside the
/// subtraction when it is outside the base or inside what was carved.
pub proof fn lemma_subtraction_membership(src: Scalar, dest: Scalar)
    requires
        !src.is_nan(),
        !dest.is_nan(),
    ensures
        !spec_subtraction(src, dest).is_nan(),
        inside(spec_subtraction(src, dest)) <==> outside(src) && inside(dest),
        outside(spec_subtraction(src, dest)) <==> inside(src) || outside(dest),
{
    lemma_neg_mirrors(src);
}

/// Clamping a number between two numbers in order gives a number within
/// them, and the number itself where it already lies within them.
pub proof fn lemma_clamp_bounds(a: Scalar, min: Scalar, max: Scalar)
    requires
        !a.is_nan(),
        min.spec_le(max),
    ensures
        min.spec_le(spec_clamp(a, min, max)),
        spec_clamp(a, min, max).spec_le(max),
        min.spec_le(a) && a.spec_le(max) ==> spec_clamp(a, min, max).rank() == a.rank(),
{
}

} // verus!
