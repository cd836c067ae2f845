//! The discrete parts of shading: the colour of each material, the floor
//! under the light, and the step from a number to a colour channel.

use vstd::prelude::*;
use vstd::arithmetic::div_mod::{lemma_div_is_ordered, lemma_fundamental_div_mod, lemma_mod_bound};
use vstd::arithmetic::power2::{lemma2_to64_rest, lemma_pow2_pos, pow2};
use vstd::bits::lemma_u64_shl_is_mul;
use crate::scalar::{Scalar, INFINITY_MAGNITUDE, SIGN_BIT};
use crate::scene::{CHEVRON, FIRST_ARCH, NOTCHED_RING, SECOND_ARCH};
use crate::value::{
    lemma_fields,
    lemma_quanta_bounds,
    lemma_whole_part,
    quanta_per_unit,
    EXPONENT_OF_ONE,
    FRACTION_SPAN,
};

verus! {

/// The pattern of `0.1`: the light that reaches every surface.
pub const AMBIENT_BITS: u64 = 0x3fb9_9999_9999_999a;

/// A colour of three channels, each from 0 to 255.
#[derive(Clone, Copy, Debug, PartialEq, Eq, Structural)]
pub struct Rgb {
    pub red: u8,
    pub green: u8,
    pub blue: u8,
}

/// The ambient light as a scalar.
pub open spec fn ambient() -> Scalar {
    Scalar { bits: AMBIENT_BITS }
}

/// The colour of a material before light falls on it. The background,
/// and any material the scene does not hold, is black.
pub open spec fn spec_base_color(material: usize) -> Rgb {
    if material == CHEVRON {
        Rgb { red: 6, green: 81, blue: 67 }
    } else if material == NOTCHED_RING {
        Rgb { red: 85, green: 111, blue: 68 }
    } else if material == FIRST_ARCH {
        Rgb { red: 101, green: 155, blue: 94 }
    } else if material == SECOND_ARCH {
        Rgb { red: 149, green: 191, blue: 116 }
    } else {
        Rgb { red: 0, green: 0, blue: 0 }
    }
}

/// The light on a surface that faces the lamp by `facing`, the cosine of
/// the angle between them: `facing` itself where it is a number above the
/// ambient light, and the ambient light otherwise.
pub open spec fn spec_light_level(facing: Scalar) -> Scalar {
    if ambient().spec_lt(facing) {
        facing
    } else {
        ambient()
    }
}

/// The channel that a number stands for: its whole part, with everything
/// below zero and everything that is not a number at 0, and everything
/// above 255 at 255.
pub open spec fn spec_channel(x: Scalar) -> int {
    if x.is_nan() || x.negative() {
        0
    } else if !x.is_finite() {
        255
    } else if x.whole_part() > 255 {
        255
    } else {
        x.whole_part()
    }
}

/// The colour of a material before light falls on it.
pub fn base_color(material: usize) -> (r: Rgb)
    ensures
        r == spec_base_color(material),
{
    if material == CHEVRON {
        Rgb { red: 6, green: 81, blue: 67 }
    } else if material == NOTCHED_RING {
        Rgb { red: 85, green: 111, blue: 68 }
    } else if material == FIRST_ARCH {
        Rgb { red: 101, green: 155, blue: 94 }
    } else if material == SECOND_ARCH {
        Rgb { red: 149, green: 191, blue: 116 }
    } else {
        Rgb { red: 0, green: 0, blue: 0 }
    }
}

/// The light on a surface: what faces away from the lamp gets none of
/// its light, and nothing gets less than the ambient light.
pub fn light_level(facing: Scalar) -> (r: Scalar)
    ensures
        r == spec_light_level(facing),
        !r.is_nan(),
        ambient().spec_le(r),
{
    let direct = Scalar::from_bits(0).max(facing);
    Scalar::from_bits(AMBIENT_BITS).max(direct)
}

/// The channel that a number stands for, cut off below 0 and above 255.
pub fn channel(x: Scalar) -> (r: u8)
    ensures
        r == spec_channel(x),
{
    let bits: u64 = x.to_bits();
    if bits >= SIGN_BIT || bits > INFINITY_MAGNITUDE {
        return 0;
    }
    if bits == INFINITY_MAGNITUDE {
        return 255;
    }
    let exponent: u64 = bits / FRACTION_SPAN;
    let fraction: u64 = bits % FRACTION_SPAN;
    proof {
        lemma_fields(x);
        lemma_whole_part(x);
    }
    if exponent < EXPONENT_OF_ONE {
        0
    } else if exponent > EXPONENT_OF_ONE + 7 {
        255
    } else {
        let shift: u64 = EXPONENT_OF_ONE + 52 - exponent;
        let significand: u64 = FRACTION_SPAN + fraction;
        proof {
            lemma2_to64_rest();
            assert(shift == 45 || shift == 46 || shift == 47 || shift == 48 || shift == 49 || shift
                == 50 || shift == 51 || shift == 52);
            lemma_u64_shl_is_mul(1, shift);
        }
        let divisor: u64 = 1u64 << shift;
        let whole: u64 = significand / divisor;
        proof {
            assert(divisor == pow2(shift as nat));
            assert(whole == x.whole_part());
            assert(whole < 256) by {
                lemma_div_is_ordered(
                    significand as int,
                    0x20_0000_0000_0000 - 1,
                    divisor as int,
                );
            }
        }
        whole as u8
    }
}

/// A channel is its number cut down to a whole one, never rounded up: a
/// number from zero to below 256 lies at or above its channel and below
/// the next.
pub proof fn lemma_channel_truncates(x: Scalar)
    requires
        !x.is_nan(),
        !x.negative(),
        x.is_finite(),
        x.quanta() < 256 * quanta_per_unit(),
    ensures
        0 <= spec_channel(x) <= 255,
        spec_channel(x) * quanta_per_unit() <= x.quanta() < (spec_channel(x) + 1)
            * quanta_per_unit(),
{
    let unit = quanta_per_unit();
    let q = x.quanta();
    lemma_pow2_pos(1074);
    lemma_quanta_bounds(x);
    lemma_fundamental_div_mod(q, unit);
    lemma_mod_bound(q, unit);
    let whole = q / unit;
    assert(0 <= whole < 256) by (nonlinear_arith)
        requires
            q == unit * whole + q % unit,
            0 <= q % unit < unit,
            0 <= q < 256 * unit,
            unit > 0,
    ;
    assert(whole * unit <= q < (whole + 1) * unit) by (nonlinear_arith)
        requires
            q == unit * whole + q % unit,
            0 <= q % unit < unit,
    ;
}

/// The colour of one pixel from three numbers, channel by channel.
pub fn quantize(red: Scalar, green: Scalar, blue: Scalar) -> (r: Rgb)
    ensures
        r.red == spec_channel(red),
        r.green == spec_channel(green),
        r.blue == spec_channel(blue),
{
    Rgb { red: channel(red), green: channel(green), blue: channel(blue) }
}

} // verus!
