//! The numbers behind the bit patterns.
//!
//! Below the sign bit a pattern holds an exponent field of 11 bits and a
//! fraction field of 52 bits. A finite pattern stands for the number
//! `significand * 2^scale / 2^1074`, negative under a set sign bit. The
//! numerator of that quotient is an integer, the value counted in quanta
//! of `2^-1074`. This module defines it and proves that the order of the
//! ranks is the order of the values.

use vstd::prelude::*;
use vstd::arithmetic::div_mod::{
    lemma_basic_div_specific_divisor,
    lemma_div_by_multiple,
    lemma_div_is_ordered,
    lemma_div_multiples_vanish_quotient,
    lemma_fundamental_div_mod,
};
use vstd::arithmetic::mul::{
    lemma_mul_inequality,
    lemma_mul_is_commutative,
    lemma_mul_strict_inequality,
};
use vstd::arithmetic::power2::{
    lemma2_to64,
    lemma2_to64_rest,
    lemma_pow2_adds,
    lemma_pow2_pos,
    lemma_pow2_strictly_increases,
    pow2,
};
use crate::scalar::{Scalar, INFINITY_MAGNITUDE};

verus! {

/// The number of patterns that share one exponent field: `2^52`.
pub const FRACTION_SPAN: u64 = 0x10_0000_0000_0000;

/// The exponent field of `1.0`. A finite number with a smaller field is
/// below one in magnitude.
pub const EXPONENT_OF_ONE: u64 = 1023;

/// The number of quanta in `1.0`.
pub open spec fn quanta_per_unit() -> int {
    pow2(1074) as int
}

impl Scalar {
    /// The 11 bits below the sign.
    pub open spec fn exponent_field(self) -> int {
        self.magnitude() / (FRACTION_SPAN as int)
    }

    /// The low 52 bits.
    pub open spec fn fraction_field(self) -> int {
        self.magnitude() % (FRACTION_SPAN as int)
    }

    /// The pattern is a number other than the infinities.
    pub open spec fn is_finite(self) -> bool {
        self.magnitude() < INFINITY_MAGNITUDE
    }

    /// The fraction, with the implicit leading bit wherever the exponent
    /// field is not zero.
    pub open spec fn significand(self) -> int {
        if self.exponent_field() == 0 {
            self.fraction_field()
        } else {
            FRACTION_SPAN + self.fraction_field()
        }
    }

    /// The power of two that the significand is multiplied by to give the
    /// number of quanta.
    pub open spec fn scale(self) -> nat {
        if self.exponent_field() <= 0 {
            0
        } else {
            (self.exponent_field() - 1) as nat
        }
    }

    /// The absolute value of a finite pattern, counted in quanta of
    /// `2^-1074`.
    pub open spec fn quanta(self) -> int {
        self.significand() * pow2(self.scale())
    }

    /// The value of a finite pattern, counted in quanta of `2^-1074`.
    pub open spec fn value_quanta(self) -> int {
        if self.negative() {
            -self.quanta()
        } else {
            self.quanta()
        }
    }

    /// The whole part of the absolute value of a finite pattern.
    pub open spec fn whole_part(self) -> int {
        self.quanta() / quanta_per_unit()
    }
}

/// The magnitude splits into its two fields, each within its width.
pub proof fn lemma_fields(a: Scalar)
    ensures
        a.magnitude() == a.exponent_field() * FRACTION_SPAN + a.fraction_field(),
        0 <= a.exponent_field() <= 2047,
        0 <= a.fraction_field() < FRACTION_SPAN,
        a.is_finite() <==> a.exponent_field() <= 2046,
        a.is_nan() <==> a.exponent_field() == 2047 && a.fraction_field() > 0,
{
    let m = a.magnitude();
    let span = FRACTION_SPAN as int;
    lemma_fundamental_div_mod(m, span);
    assert(span * (m / span) == (m / span) * span) by (nonlinear_arith);
    assert(0 <= m < 0x8000_0000_0000_0000);
}

/// The quanta of a pattern lie between two neighbouring powers of two
/// that its exponent field fixes; with a zero field they are the fraction.
pub proof fn lemma_quanta_bounds(a: Scalar)
    ensures
        a.exponent_field() == 0 ==> a.quanta() == a.fraction_field() && 0 <= a.quanta() < pow2(52),
        a.exponent_field() >= 1 ==> pow2((51 + a.exponent_field()) as nat) <= a.quanta() < pow2(
            (52 + a.exponent_field()) as nat,
        ),
{
    lemma_fields(a);
    lemma2_to64();
    lemma2_to64_rest();
    let e = a.exponent_field();
    let f = a.fraction_field();
    if e == 0 {
        assert(a.quanta() == f * pow2(0));
        assert(f * 1 == f);
    } else {
        let n = (e - 1) as nat;
        let p = pow2(n) as int;
        lemma_pow2_pos(n);
        lemma_pow2_adds(52, n);
        lemma_pow2_adds(53, n);
        assert(pow2(52) == FRACTION_SPAN);
        assert(pow2(53) == 2 * FRACTION_SPAN);
        assert(a.quanta() == (FRACTION_SPAN + f) * p);
        lemma_mul_inequality(FRACTION_SPAN as int, FRACTION_SPAN + f, p);
        lemma_mul_strict_inequality(FRACTION_SPAN + f, 2 * FRACTION_SPAN, p);
        assert(pow2(52 + n) == pow2((51 + e) as nat));
        assert(pow2(53 + n) == pow2((52 + e) as nat));
    }
}

/// A larger magnitude stands for a larger absolute value.
pub proof fn lemma_magnitude_orders_quanta(a: Scalar, b: Scalar)
    requires
        a.magnitude() < b.magnitude(),
    ensures
        a.quanta() < b.quanta(),
{
    lemma_fields(a);
    lemma_fields(b);
    lemma_quanta_bounds(a);
    lemma_quanta_bounds(b);
    let ea = a.exponent_field();
    let eb = b.exponent_field();
    if ea == eb {
        assert(a.fraction_field() < b.fraction_field());
        let p = pow2(a.scale()) as int;
        lemma_pow2_pos(a.scale());
        lemma_mul_strict_inequality(a.significand(), b.significand(), p);
    } else {
        assert(ea < eb) by (nonlinear_arith)
            requires
                ea != eb,
                a.magnitude() == ea * FRACTION_SPAN + a.fraction_field(),
                b.magnitude() == eb * FRACTION_SPAN + b.fraction_field(),
                0 <= a.fraction_field() < FRACTION_SPAN,
                0 <= b.fraction_field() < FRACTION_SPAN,
                a.magnitude() < b.magnitude(),
        ;
        let hi = if ea == 0 {
            52nat
        } else {
            (52 + ea) as nat
        };
        let lo = (51 + eb) as nat;
        assert(a.quanta() < pow2(hi));
        assert(pow2(lo) <= b.quanta());
        if hi < lo {
            lemma_pow2_strictly_increases(hi, lo);
        }
    }
}

/// The order of the ranks is the order of the values: of two patterns,
/// the one with the smaller rank stands for the smaller number, and two
/// patterns of one rank stand for one number.
pub proof fn lemma_rank_orders_values(a: Scalar, b: Scalar)
    ensures
        a.rank() < b.rank() <==> a.value_quanta() < b.value_quanta(),
        a.rank() == b.rank() <==> a.value_quanta() == b.value_quanta(),
{
    lemma_quanta_bounds(a);
    lemma_quanta_bounds(b);
    lemma_zero_quanta(a);
    lemma_zero_quanta(b);
    if a.magnitude() < b.magnitude() {
        lemma_magnitude_orders_quanta(a, b);
    } else if b.magnitude() < a.magnitude() {
        lemma_magnitude_orders_quanta(b, a);
    }
}

/// Numeric `<` and `<=` on patterns are `<` and `<=` on the values they
/// stand for, wherever both patterns are numbers.
pub proof fn lemma_comparison_is_numeric(a: Scalar, b: Scalar)
    requires
        !a.is_nan(),
        !b.is_nan(),
    ensures
        a.spec_lt(b) <==> a.value_quanta() < b.value_quanta(),
        a.spec_le(b) <==> a.value_quanta() <= b.value_quanta(),
{
    lemma_rank_orders_values(a, b);
}

/// The whole part of a number by its exponent field: nothing below the
/// field of one, the significand without its low bits from there on, and
/// 256 or more from eight fields above.
pub proof fn lemma_whole_part(x: Scalar)
    ensures
        x.whole_part() >= 0,
        x.exponent_field() < EXPONENT_OF_ONE ==> x.whole_part() == 0,
        EXPONENT_OF_ONE <= x.exponent_field() <= EXPONENT_OF_ONE + 52 ==> x.whole_part()
            == x.significand() / (pow2((EXPONENT_OF_ONE + 52 - x.exponent_field()) as nat) as int),
        x.exponent_field() > EXPONENT_OF_ONE + 7 ==> x.whole_part() >= 256,
{
    lemma_fields(x);
    lemma_quanta_bounds(x);
    lemma_zero_quanta(x);
    lemma2_to64();
    lemma_pow2_pos(1074);
    let unit = quanta_per_unit();
    let e = x.exponent_field();
    lemma_div_is_ordered(0, x.quanta(), unit);
    lemma_basic_div_specific_divisor(unit);
    if e < EXPONENT_OF_ONE {
        if e >= 1 {
            let top = (52 + e) as nat;
            if top < 1074 {
                lemma_pow2_strictly_increases(top, 1074);
            }
        } else {
            lemma_pow2_strictly_increases(52, 1074);
        }
        assert(0 <= x.quanta() < unit);
    } else {
        if e <= EXPONENT_OF_ONE + 52 {
            let k = (EXPONENT_OF_ONE + 52 - e) as nat;
            let n = (e - 1) as nat;
            let sig = x.significand();
            lemma_pow2_pos(n);
            lemma_pow2_pos(k);
            lemma_pow2_adds(n, k);
            assert(n + k == 1074);
            lemma_div_multiples_vanish_quotient(pow2(n) as int, sig, pow2(k) as int);
            lemma_mul_is_commutative(pow2(n) as int, sig);
            assert(x.quanta() == sig * pow2(n));
        }
        if e > EXPONENT_OF_ONE + 7 {
            let low = (51 + e) as nat;
            if 1082 < low {
                lemma_pow2_strictly_increases(1082, low);
            }
            lemma_pow2_adds(8, 1074);
            assert(pow2(8) == 256);
            assert(256 * unit <= x.quanta());
            lemma_div_by_multiple(256, unit);
            lemma_div_is_ordered(256 * unit, x.quanta(), unit);
        }
    }
}

/// Only the two zeros stand for zero.
pub proof fn lemma_zero_quanta(a: Scalar)
    ensures
        a.quanta() >= 0,
        a.quanta() == 0 <==> a.magnitude() == 0,
{
    lemma_fields(a);
    lemma_quanta_bounds(a);
    if a.exponent_field() >= 1 {
        lemma_pow2_pos((51 + a.exponent_field()) as nat);
    }
}

} // verus!
