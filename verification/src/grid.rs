//! From numbers to the grid.
//!
//! A number is the bit pattern of a double: a sign bit, eleven bits of
//! exponent and fifty-two bits of fraction. A finite double is a whole
//! number, its significand, times a power of two, so the nearest point of
//! the grid can be found in whole numbers, without rounding twice.

use vstd::prelude::*;
use vstd::arithmetic::power2::{
    lemma2_to64, lemma2_to64_rest, lemma_pow2_adds, lemma_pow2_pos, lemma_pow2_strictly_increases,
    lemma_pow2_unfold, pow2,
};
use crate::geometry::{in_range, COORD_MAX, UNITS_PER_METRE};
use crate::number::Number;

verus! {

/// The exponent field of a double.
pub open spec fn exponent_bits(bits: u64) -> int {
    (bits as int / 0x10_0000_0000_0000) % 0x800
}

/// The fraction field of a double.
pub open spec fn fraction_bits(bits: u64) -> int {
    bits as int % 0x10_0000_0000_0000
}

/// Whether the sign bit of a double is set.
pub open spec fn is_negative(bits: u64) -> bool {
    bits >= 0x8000_0000_0000_0000
}

/// Whether a double is a number at all, and not an infinity.
pub open spec fn is_finite(bits: u64) -> bool {
    exponent_bits(bits) != 0x7ff
}

/// The significand of a finite double: its magnitude is the significand
/// times two to the power of [`binary_exponent`].
pub open spec fn significand(bits: u64) -> int {
    if exponent_bits(bits) == 0 {
        fraction_bits(bits)
    } else {
        fraction_bits(bits) + 0x10_0000_0000_0000
    }
}

/// The power of two that the significand of a finite double is taken
/// times.
pub open spec fn binary_exponent(bits: u64) -> int {
    if exponent_bits(bits) == 0 {
        -1074
    } else {
        exponent_bits(bits) - 1075
    }
}

/// The whole number nearest to `whole` times two to the power of
/// `exponent`, for a `whole` that is not negative; a half is rounded up.
pub open spec fn rounded_shift(whole: int, exponent: int) -> int {
    if exponent >= 0 {
        whole * pow2(exponent as nat)
    } else {
        (2 * whole + pow2((-exponent) as nat)) / (2 * pow2((-exponent) as nat) as int)
    }
}

/// The magnitude of a coordinate times a finite double, rounded to the
/// nearest whole number, a half away from zero.
pub open spec fn scaled_magnitude(coordinate: int, bits: u64) -> int {
    rounded_shift(
        significand(bits) * (if coordinate < 0 {
            -coordinate
        } else {
            coordinate
        }),
        binary_exponent(bits),
    )
}

/// The coordinate nearest to `coordinate` times a double, a half away
/// from zero; `None` where the double is not finite or the product leaves
/// the grid.
pub open spec fn scaled_coordinate(coordinate: int, bits: u64) -> Option<int> {
    if !is_finite(bits) || scaled_magnitude(coordinate, bits) > COORD_MAX {
        None
    } else if is_negative(bits) != (coordinate < 0) {
        Some(-scaled_magnitude(coordinate, bits))
    } else {
        Some(scaled_magnitude(coordinate, bits))
    }
}

/// The coordinate that a length in metres falls on, or `None` where the
/// double is not finite or the length leaves the grid.
pub open spec fn grid_value(bits: u64) -> Option<int> {
    scaled_coordinate(UNITS_PER_METRE as int, bits)
}

/// Two to the power of `exponent`.
fn power_of_two(exponent: u32) -> (r: u128)
    requires
        exponent <= 83,
    ensures
        r == pow2(exponent as nat),
        0 < r <= 0x8_0000_0000_0000_0000_0000,
{
    proof {
        lemma2_to64();
        lemma2_to64_rest();
        lemma_pow2_adds(64, 19);
    }
    let mut power: u128 = 1;
    let mut k: u32 = 0;
    while k < exponent
        invariant
            k <= exponent <= 83,
            power == pow2(k as nat),
            pow2(83) == 0x8_0000_0000_0000_0000_0000,
        decreases exponent - k,
    {
        proof {
            lemma_pow2_strictly_increases(k as nat, 83);
            lemma_pow2_unfold((k + 1) as nat);
        }
        power = power * 2;
        k += 1;
    }
    proof {
        lemma_pow2_pos(exponent as nat);
        if exponent < 83 {
            lemma_pow2_strictly_increases(exponent as nat, 83);
        }
    }
    power
}

/// The coordinate nearest to `coordinate` times `factor`, a half away
/// from zero. There is none where the factor is not finite or the product
/// lies off the grid.
pub fn scale_coordinate(coordinate: i64, factor: Number) -> (r: Option<i64>)
    requires
        in_range(coordinate as int),
    ensures
        match r {
            Some(product) => scaled_coordinate(coordinate as int, factor.bits) == Some(
                product as int,
            ) && in_range(product as int),
            None => scaled_coordinate(coordinate as int, factor.bits) is None,
        },
{
    let bits = factor.bits;
    let exponent = (bits / 0x10_0000_0000_0000) % 0x800;
    let fraction = bits % 0x10_0000_0000_0000;
    let negative = (bits >= 0x8000_0000_0000_0000) != (coordinate < 0);
    if exponent == 0x7ff {
        return None;
    }
    let magnitude: u64 = if coordinate < 0 {
        (-coordinate) as u64
    } else {
        coordinate as u64
    };
    let significand: u64 = if exponent == 0 {
        fraction
    } else {
        fraction + 0x10_0000_0000_0000
    };
    assert(0 <= significand * magnitude < 0x20_0000_0000_0000 * 0x4000_0000) by (nonlinear_arith)
        requires
            0 <= significand < 0x20_0000_0000_0000,
            0 <= magnitude <= 0x4000_0000,
    ;
    let whole: u128 = significand as u128 * magnitude as u128;
    if exponent >= 1075 {
        proof {
            let power = pow2((exponent - 1075) as nat);
            lemma_pow2_pos((exponent - 1075) as nat);
            assert(whole * power >= whole) by (nonlinear_arith)
                requires
                    whole >= 0,
                    power >= 1,
            ;
            if magnitude > 0 {
                assert(significand * magnitude >= significand) by (nonlinear_arith)
                    requires
                        significand >= 0,
                        magnitude >= 1,
                ;
            } else {
                assert(significand * magnitude == 0) by (nonlinear_arith)
                    requires
                        magnitude == 0,
                ;
                assert(whole * power == 0) by (nonlinear_arith)
                    requires
                        whole == 0,
                ;
            }
        }
        return if magnitude == 0 {
            Some(0)
        } else {
            None
        };
    }
    let shift: u64 = if exponent == 0 {
        1074
    } else {
        1075 - exponent
    };
    assert(shift == -binary_exponent(bits));
    if shift >= 84 {
        proof {
            lemma2_to64();
            lemma2_to64_rest();
            lemma_pow2_adds(64, 20);
            if shift > 84 {
                lemma_pow2_strictly_increases(84, shift as nat);
            }
            let power = pow2(shift as nat) as int;
            assert(2 * whole < power);
            assert((2 * whole + power) / (2 * power) == 0) by (nonlinear_arith)
                requires
                    0 <= 2 * whole + power < 2 * power,
            ;
        }
        return Some(0);
    }
    let power = power_of_two(shift as u32);
    let rounded = (2 * whole + power) / (2 * power);
    if rounded > COORD_MAX as u128 {
        None
    } else if negative {
        Some(-(rounded as i64))
    } else {
        Some(rounded as i64)
    }
}

/// The coordinate that a length in metres falls on: the nearest whole
/// number of grid units, a half away from zero. There is none for a value
/// that is not finite or that lies off the grid.
pub fn to_grid(length: Number) -> (r: Option<i64>)
    ensures
        match r {
            Some(coordinate) => grid_value(length.bits) == Some(coordinate as int) && in_range(
                coordinate as int,
            ),
            None => grid_value(length.bits) is None,
        },
{
    scale_coordinate(UNITS_PER_METRE, length)
}

} // verus!
