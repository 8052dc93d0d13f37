//! Bit patterns of floating-point numbers.
//!
//! The library carries a floating-point number as the integer that holds its
//! IEEE 754 bit pattern, and never computes with it. What is exact at every
//! input is done here on the bit patterns: the conversion from single to
//! double precision, and the comparison of two numbers for equality.

use vstd::prelude::*;

verus! {

/// The sign bit of a single-precision pattern.
pub open spec fn single_sign(s: u32) -> int {
    (s as int) / 0x8000_0000
}

/// The biased exponent field of a single-precision pattern.
pub open spec fn single_exponent(s: u32) -> int {
    ((s as int) / 0x80_0000) % 0x100
}

/// The fraction field of a single-precision pattern.
pub open spec fn single_fraction(s: u32) -> int {
    (s as int) % 0x80_0000
}

/// Puts the three fields of a double-precision pattern together.
pub open spec fn double_pattern(sign: int, exponent: int, fraction: int) -> int {
    sign * 0x8000_0000_0000_0000 + exponent * 0x10_0000_0000_0000 + fraction
}

/// The number of binary places by which a subnormal single-precision fraction
/// has to be moved up until its leading one stands at bit 23.
pub open spec fn subnormal_shift(fraction: int) -> int
    recommends
        0 < fraction < 0x80_0000,
    decreases 0x80_0000 - fraction,
{
    if 0 < fraction < 0x40_0000 {
        1 + subnormal_shift(2 * fraction)
    } else {
        1
    }
}

/// `2` to the power `n`.
pub open spec fn pow2(n: int) -> int
    decreases n,
{
    if n <= 0 {
        1
    } else {
        2 * pow2(n - 1)
    }
}

/// The double-precision pattern of the number that the single-precision
/// pattern `s` stands for. Infinities stay infinities, a NaN keeps its sign
/// and moves its payload to the top of the wider fraction.
pub open spec fn widen_model(s: u32) -> int {
    let sign = single_sign(s);
    let exponent = single_exponent(s);
    let fraction = single_fraction(s);
    if exponent == 0xff {
        double_pattern(sign, 0x7ff, fraction * 0x2000_0000)
    } else if exponent != 0 {
        double_pattern(sign, exponent + 896, fraction * 0x2000_0000)
    } else if fraction == 0 {
        double_pattern(sign, 0, 0)
    } else {
        let shift = subnormal_shift(fraction);
        double_pattern(
            sign,
            897 - shift,
            (fraction * pow2(shift) - 0x80_0000) * 0x2000_0000,
        )
    }
}

/// Widens a single-precision bit pattern to the double-precision pattern of
/// the same number.
pub fn widen_single(s: u32) -> (d: u64)
    ensures
        d as int == widen_model(s),
{
    let sign: u64 = (s / 0x8000_0000) as u64;
    let exponent: u64 = ((s / 0x80_0000) % 0x100) as u64;
    let fraction: u64 = (s % 0x80_0000) as u64;
    if exponent == 0xff {
        sign * 0x8000_0000_0000_0000 + 0x7ff * 0x10_0000_0000_0000 + fraction * 0x2000_0000
    } else if exponent != 0 {
        sign * 0x8000_0000_0000_0000 + (exponent + 896) * 0x10_0000_0000_0000 + fraction
            * 0x2000_0000
    } else if fraction == 0 {
        sign * 0x8000_0000_0000_0000
    } else {
        let mut shifted: u64 = fraction;
        let mut shift: u64 = 0;
        proof {
            reveal_with_fuel(pow2, 24);
        }
        while shifted < 0x40_0000
            invariant
                0 < shifted < 0x80_0000,
                0 <= shift <= 22,
                pow2(shift as int) <= shifted,
                shifted as int == fraction as int * pow2(shift as int),
                subnormal_shift(fraction as int) == shift as int + subnormal_shift(
                    shifted as int,
                ),
            decreases 0x80_0000 - shifted,
        {
            proof {
                reveal_with_fuel(pow2, 24);
                assert(pow2(shift as int + 1) == 2 * pow2(shift as int));
                assert(fraction as int * (2 * pow2(shift as int)) == 2 * (fraction as int * pow2(
                    shift as int,
                ))) by (nonlinear_arith);
            }
            shifted = shifted * 2;
            shift = shift + 1;
        }
        proof {
            assert(pow2(shift as int + 1) == 2 * pow2(shift as int));
            assert(fraction as int * (2 * pow2(shift as int)) == 2 * (fraction as int * pow2(
                shift as int,
            ))) by (nonlinear_arith);
        }
        let top: u64 = shifted * 2 - 0x80_0000;
        sign * 0x8000_0000_0000_0000 + (896 - shift) * 0x10_0000_0000_0000 + top * 0x2000_0000
    }
}

/// The pattern of a double-precision number without its sign.
pub open spec fn double_magnitude(d: u64) -> int {
    (d as int) % 0x8000_0000_0000_0000
}

/// Whether a double-precision pattern stands for no number: its exponent is
/// all ones and its fraction is not zero.
pub open spec fn double_is_nan(d: u64) -> bool {
    double_magnitude(d) > 0x7ff0_0000_0000_0000
}

/// Whether two double-precision patterns stand for equal numbers. A NaN is
/// equal to nothing, itself included; zero and minus zero are equal; any
/// other two numbers are equal where their patterns are.
pub open spec fn doubles_equal(a: u64, b: u64) -> bool {
    &&& !double_is_nan(a)
    &&& !double_is_nan(b)
    &&& (a == b || (double_magnitude(a) == 0 && double_magnitude(b) == 0))
}

/// Whether two double-precision patterns stand for equal numbers.
pub fn equal_doubles(a: u64, b: u64) -> (r: bool)
    ensures
        r == doubles_equal(a, b),
{
    let x: u64 = a % 0x8000_0000_0000_0000;
    let y: u64 = b % 0x8000_0000_0000_0000;
    x <= 0x7ff0_0000_0000_0000 && y <= 0x7ff0_0000_0000_0000 && (a == b || (x == 0 && y == 0))
}

/// The pattern of a single-precision number without its sign.
pub open spec fn single_magnitude(s: u32) -> int {
    (s as int) % 0x8000_0000
}

/// Whether a single-precision pattern stands for no number.
pub open spec fn single_is_nan(s: u32) -> bool {
    single_magnitude(s) > 0x7f80_0000
}

/// Whether two single-precision patterns stand for equal numbers, as
/// [`doubles_equal`] says of double-precision ones.
pub open spec fn singles_equal(a: u32, b: u32) -> bool {
    &&& !single_is_nan(a)
    &&& !single_is_nan(b)
    &&& (a == b || (single_magnitude(a) == 0 && single_magnitude(b) == 0))
}

/// Whether two single-precision patterns stand for equal numbers.
pub fn equal_singles(a: u32, b: u32) -> (r: bool)
    ensures
        r == singles_equal(a, b),
{
    let x: u32 = a % 0x8000_0000;
    let y: u32 = b % 0x8000_0000;
    x <= 0x7f80_0000 && y <= 0x7f80_0000 && (a == b || (x == 0 && y == 0))
}

} // verus!
