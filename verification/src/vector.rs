//! Vectors of three numbers, as far as their components are selected
//! rather than calculated.

use vstd::prelude::*;
use crate::scalar::Scalar;

verus! {

/// A point, a direction or a size: three numbers.
#[derive(Clone, Copy, Debug, PartialEq, Eq, Structural)]
pub struct Vec3(pub Scalar, pub Scalar, pub Scalar);

impl Vec3 {
    /// Every component without its sign.
    pub open spec fn spec_abs(self) -> Vec3 {
        Vec3(self.0.spec_abs(), self.1.spec_abs(), self.2.spec_abs())
    }

    /// The largest component: the first against the larger of the other
    /// two.
    pub open spec fn spec_largest(self) -> Scalar {
        self.0.spec_max(self.1.spec_max(self.2))
    }

    /// No component is not a number.
    pub open spec fn is_numeric(self) -> bool {
        !self.0.is_nan() && !self.1.is_nan() && !self.2.is_nan()
    }

    /// The zero vector, each component `+0.0`.
    pub open spec fn spec_zero() -> Vec3 {
        Vec3(Scalar { bits: 0 }, Scalar { bits: 0 }, Scalar { bits: 0 })
    }

    /// The zero vector.
    pub fn zero() -> (r: Vec3)
        ensures
            r == Vec3::spec_zero(),
    {
        Vec3(Scalar::from_bits(0), Scalar::from_bits(0), Scalar::from_bits(0))
    }

    /// Every component without its sign.
    #[verifier::when_used_as_spec(spec_abs)]
    pub fn abs(self) -> (r: Vec3)
        ensures
            r == self.spec_abs(),
    {
        Vec3(self.0.abs(), self.1.abs(), self.2.abs())
    }

    /// The largest component.
    #[verifier::when_used_as_spec(spec_largest)]
    pub fn largest(self) -> (r: Scalar)
        ensures
            r == self.spec_largest(),
    {
        self.0.max(self.1.max(self.2))
    }
}

impl From<(Scalar, Scalar, Scalar)> for Vec3 {
    fn from(i: (Scalar, Scalar, Scalar)) -> (r: Vec3) {
        Vec3(i.0, i.1, i.2)
    }
}

impl vstd::std_specs::convert::FromSpecImpl<(Scalar, Scalar, Scalar)> for Vec3 {
    open spec fn obeys_from_spec() -> bool {
        true
    }

    open spec fn from_spec(i: (Scalar, Scalar, Scalar)) -> Vec3 {
        Vec3(i.0, i.1, i.2)
    }
}

/// The larger of two vectors, component by component.
pub open spec fn spec_max(lhs: Vec3, rhs: Vec3) -> Vec3 {
    Vec3(lhs.0.spec_max(rhs.0), lhs.1.spec_max(rhs.1), lhs.2.spec_max(rhs.2))
}

/// The larger of two vectors, component by component.
pub fn max(lhs: Vec3, rhs: Vec3) -> (r: Vec3)
    ensures
        r == spec_max(lhs, rhs),
{
    Vec3(lhs.0.max(rhs.0), lhs.1.max(rhs.1), lhs.2.max(rhs.2))
}

/// Taking the sign away leaves numbers at or above zero, the same in
/// magnitude, and leaves what has no sign as it is.
pub proof fn lemma_abs_is_unsigned(a: Scalar)
    ensures
        !a.spec_abs().negative(),
        a.spec_abs().magnitude() == a.magnitude(),
        a.spec_abs().is_nan() == a.is_nan(),
        a.spec_abs().rank() >= 0,
        a.spec_abs().rank() == if a.rank() < 0 {
            -a.rank()
        } else {
            a.rank()
        },
        !a.negative() ==> a.spec_abs() == a,
{
}

/// The largest component of a vector of numbers is one of them, and none
/// of them is larger.
pub proof fn lemma_largest_bounds(v: Vec3)
    requires
        v.is_numeric(),
    ensures
        v.spec_largest() == v.0 || v.spec_largest() == v.1 || v.spec_largest() == v.2,
        v.0.spec_le(v.spec_largest()),
        v.1.spec_le(v.spec_largest()),
        v.2.spec_le(v.spec_largest()),
{
}

} // verus!
