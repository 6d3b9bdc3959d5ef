//! Binary64 numbers, held by their bit patterns.
//!
//! A sampling threshold or a temperature is a real number that the service
//! reads as an IEEE 754 binary64. This module carries such a number as the
//! 64 bits of its encoding: a sign bit, an exponent field of 11 bits and a
//! fraction of 52 bits. It says what number an encoding stands for, and
//! decides the one question that the request rules ask of it: whether the
//! number lies between zero and one.

use vstd::arithmetic::power2::{
    lemma2_to64, lemma2_to64_rest, lemma_pow2_adds, lemma_pow2_pos, lemma_pow2_strictly_increases,
    pow2,
};
use vstd::prelude::*;

verus! {

/// Bit pattern of the number one.
pub const ONE_BITS: u64 = 0x3ff0_0000_0000_0000;

/// Bit pattern of negative zero.
pub const NEGATIVE_ZERO_BITS: u64 = 0x8000_0000_0000_0000;

/// Exponent field of the numbers from one up to, not including, two.
pub const EXPONENT_BIAS: u64 = 1023;

/// Exponent field that marks infinities and NaNs.
pub const EXPONENT_SPECIAL: u64 = 0x7ff;

/// The bit that stands before the fraction of a normal number.
pub const HIDDEN_BIT: u64 = 0x10_0000_0000_0000;

/// Whether the sign bit of the encoding is set.
pub open spec fn sign_of(bits: u64) -> bool {
    bits >> 63 == 1
}

/// The 11-bit exponent field of the encoding.
pub open spec fn exponent_of(bits: u64) -> u64 {
    (bits >> 52) & 0x7ff
}

/// The 52-bit fraction field of the encoding.
pub open spec fn fraction_of(bits: u64) -> u64 {
    bits & 0xf_ffff_ffff_ffff
}

/// The encoding is positive or negative zero.
pub open spec fn is_zero(bits: u64) -> bool {
    exponent_of(bits) == 0 && fraction_of(bits) == 0
}

/// The encoding is an infinity or a NaN.
pub open spec fn is_special(bits: u64) -> bool {
    exponent_of(bits) == EXPONENT_SPECIAL
}

/// The integer significand of a finite number: the fraction, with the
/// hidden bit before it unless the number is subnormal.
pub open spec fn significand(bits: u64) -> nat {
    if exponent_of(bits) == 0 {
        fraction_of(bits) as nat
    } else {
        (HIDDEN_BIT + fraction_of(bits)) as nat
    }
}

/// The power of two by which the significand of a finite number is
/// scaled, counted from `-1075`: the exponent field, or one for a
/// subnormal number.
pub open spec fn scale(bits: u64) -> nat {
    if exponent_of(bits) == 0 {
        1
    } else {
        exponent_of(bits) as nat
    }
}

/// The magnitude of a finite number in units of `2^-1075`: the number is
/// `significand * 2^(scale - 1075)`, negated where the sign bit is set.
pub open spec fn magnitude(bits: u64) -> nat {
    significand(bits) * pow2(scale(bits))
}

/// The number one in units of `2^-1075`.
pub open spec fn unit() -> nat {
    pow2(1075)
}

/// The encoded number `x` satisfies `0.0 <= x <= 1.0`.
///
/// Infinities and NaNs do not. A finite number does if it is zero, of
/// either sign, or if it is positive and its magnitude is at most one.
pub open spec fn in_unit_interval(bits: u64) -> bool {
    &&& !is_special(bits)
    &&& magnitude(bits) == 0 || (!sign_of(bits) && magnitude(bits) <= unit())
}

/// How the magnitude of a finite number compares with one, by its fields:
/// below one where the exponent field is under the bias, above where it
/// is over, and at the bias equal to one exactly if the fraction is
/// zero. The magnitude is zero exactly if both fields are.
pub proof fn lemma_magnitude_by_fields(bits: u64)
    requires
        !is_special(bits),
    ensures
        magnitude(bits) == 0 <==> is_zero(bits),
        exponent_of(bits) < EXPONENT_BIAS ==> magnitude(bits) < unit(),
        exponent_of(bits) == EXPONENT_BIAS ==> (magnitude(bits) <= unit() <==> fraction_of(bits)
            == 0),
        exponent_of(bits) > EXPONENT_BIAS ==> magnitude(bits) > unit(),
{
    let e = exponent_of(bits);
    let f = fraction_of(bits);
    let m = significand(bits);
    let k = scale(bits);
    assert(f < 0x10_0000_0000_0000) by (bit_vector)
        requires
            f == bits & 0xf_ffff_ffff_ffff,
    ;
    assert(e <= 0x7ff) by (bit_vector)
        requires
            e == (bits >> 52) & 0x7ff,
    ;
    lemma2_to64();
    lemma2_to64_rest();
    lemma_pow2_pos(k);
    assert(pow2(52) == HIDDEN_BIT);
    assert(m * pow2(k) == 0 <==> m == 0) by (nonlinear_arith)
        requires
            pow2(k) > 0,
    ;
    if e < EXPONENT_BIAS {
        // m < 2^53 and k <= 1022, so m * 2^k < 2^53 * 2^1022 = 2^1075.
        lemma_pow2_adds(53, 1022);
        if k < 1022 {
            lemma_pow2_strictly_increases(k, 1022);
        }
        assert(m < pow2(53));
        assert(m * pow2(k) < pow2(53) * pow2(1022)) by (nonlinear_arith)
            requires
                m < pow2(53),
                0 < pow2(k) <= pow2(1022),
        ;
    } else if e == EXPONENT_BIAS {
        // At the bias, m * 2^1023 <= 2^52 * 2^1023 says m <= 2^52.
        lemma_pow2_adds(52, 1023);
        lemma_pow2_pos(1023);
        assert(m * pow2(1023) <= pow2(52) * pow2(1023) <==> m <= pow2(52)) by (nonlinear_arith)
            requires
                pow2(1023) > 0,
        ;
    } else {
        // m >= 2^52 and k >= 1024, so m * 2^k >= 2^52 * 2^1024 = 2^1076.
        lemma_pow2_adds(52, 1024);
        lemma_pow2_adds(52, 1023);
        lemma_pow2_strictly_increases(1075, 1076);
        if k > 1024 {
            lemma_pow2_strictly_increases(1024, k);
        }
        assert(m * pow2(k) >= pow2(52) * pow2(1024)) by (nonlinear_arith)
            requires
                m >= pow2(52),
                pow2(k) >= pow2(1024),
        ;
    }
}

/// On bit patterns the unit interval is the range from the pattern of
/// positive zero to that of one, and the pattern of negative zero.
pub proof fn lemma_unit_interval_patterns(bits: u64)
    ensures
        in_unit_interval(bits) <==> (bits <= ONE_BITS || bits == NEGATIVE_ZERO_BITS),
{
    if !is_special(bits) {
        lemma_magnitude_by_fields(bits);
    }
    assert(((bits >> 63 == 1) || ((bits >> 52) & 0x7ff) > 1023 || (((bits >> 52) & 0x7ff) == 1023
        && (bits & 0xf_ffff_ffff_ffff) != 0)) <==> bits > 0x3ff0_0000_0000_0000) by (bit_vector);
    assert((((bits >> 52) & 0x7ff) == 0 && (bits & 0xf_ffff_ffff_ffff) == 0) <==> (bits == 0 || bits
        == 0x8000_0000_0000_0000)) by (bit_vector);
    assert(bits == 0x8000_0000_0000_0000 ==> ((bits >> 52) & 0x7ff) == 0) by (bit_vector);
}

/// A binary64 number, held by the 64 bits of its encoding.
#[derive(Clone, Copy, Debug, PartialEq, Eq, Structural)]
pub struct Binary64 {
    pub bits: u64,
}

impl Binary64 {
    /// The number with the given encoding.
    pub fn from_bits(bits: u64) -> (result: Binary64)
        ensures
            result.bits == bits,
    {
        Binary64 { bits }
    }

    /// The encoding of the number.
    pub fn to_bits(&self) -> (result: u64)
        ensures
            result == self.bits,
    {
        self.bits
    }

    /// Whether the number lies between zero and one, both included.
    pub fn is_in_unit_interval(&self) -> (result: bool)
        ensures
            result == in_unit_interval(self.bits),
    {
        proof {
            lemma_unit_interval_patterns(self.bits);
        }
        self.bits <= ONE_BITS || self.bits == NEGATIVE_ZERO_BITS
    }
}

} // verus!
