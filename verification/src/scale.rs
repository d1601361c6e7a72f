//! The scale of an export, a binary64 number, held by its encoding so that
//! the library can do without floating point.

use vstd::arithmetic::power2::pow2;
use vstd::bits::lemma_u64_shr_is_div;
use vstd::prelude::*;

verus! {

/// The encoding of the number one.
pub const ONE_BITS: u64 = 0x3FF0_0000_0000_0000;

/// The encoding of the number two.
pub const TWO_BITS: u64 = 0x4000_0000_0000_0000;

/// Two to the power of 52: the weight of the implicit leading bit.
pub const HIDDEN_BIT: u64 = 0x10_0000_0000_0000;

/// The factor by which an image is enlarged on export.
///
/// The factor is a binary64 number. It is kept as the 64 bits of its
/// encoding: one sign bit, eleven bits of exponent and fifty-two bits of
/// fraction, from the most significant bit down.
#[derive(Clone, Copy, Debug, PartialEq, Eq, Structural)]
pub struct Scale {
    pub bits: u64,
}

impl Scale {
    /// The sign bit is set: the number is below zero, a negative zero, or a
    /// negative not-a-number.
    pub open spec fn negative(self) -> bool {
        self.bits >= 0x8000_0000_0000_0000
    }

    /// The exponent field, biased by 1023.
    pub open spec fn exponent(self) -> int {
        (self.bits as int / HIDDEN_BIT as int) % 0x800
    }

    /// The fraction field.
    pub open spec fn fraction(self) -> int {
        self.bits as int % HIDDEN_BIT as int
    }

    /// The encoding stands for no number.
    pub open spec fn is_nan(self) -> bool {
        self.exponent() == 0x7FF && self.fraction() != 0
    }

    /// The number is exactly one. No other encoding compares equal to one.
    pub open spec fn is_one(self) -> bool {
        self.bits == ONE_BITS
    }

    /// The whole part of the number, rounded toward zero and kept within
    /// what 32 bits without a sign hold: zero for what is negative or no
    /// number, the largest value for what is too large.
    ///
    /// A number with exponent field `e` of at least 1023 is
    /// `(2^52 + fraction) * 2^(e - 1075)`. Below `e = 1055` its whole part is
    /// under `2^32`, and `1075 - e` is at least 21.
    pub open spec fn whole(self) -> int {
        if self.negative() || self.is_nan() || self.exponent() < 1023 {
            0
        } else if self.exponent() >= 1055 {
            u32::MAX as int
        } else {
            (HIDDEN_BIT as int + self.fraction()) / (pow2((1075 - self.exponent()) as nat) as int)
        }
    }

    /// The scale with the given encoding.
    pub fn from_bits(bits: u64) -> (s: Scale)
        ensures
            s.bits == bits,
    {
        Scale { bits }
    }

    /// The encoding of the scale.
    pub fn to_bits(&self) -> (bits: u64)
        ensures
            bits == self.bits,
    {
        self.bits
    }

    /// The scale of an image exported at its own size.
    pub fn one() -> (s: Scale)
        ensures
            s.is_one(),
    {
        Scale { bits: ONE_BITS }
    }

    /// Tells whether the number is exactly one.
    pub fn equals_one(&self) -> (b: bool)
        ensures
            b == self.is_one(),
    {
        self.bits == ONE_BITS
    }

    /// The whole part of the number, as `whole` defines it.
    pub fn truncated(&self) -> (n: u32)
        ensures
            n == self.whole(),
    {
        let bits: u64 = self.bits;
        let exponent: u64 = (bits >> 52) & 0x7FF;
        let fraction: u64 = bits & 0xF_FFFF_FFFF_FFFF;
        let negative: bool = (bits >> 63) == 1;
        proof {
            assert(((bits >> 52) & 0x7FF) == (bits / 0x10_0000_0000_0000) % 0x800) by (bit_vector);
            assert((bits & 0xF_FFFF_FFFF_FFFF) == bits % 0x10_0000_0000_0000) by (bit_vector);
            assert(((bits >> 63) == 1) == (bits >= 0x8000_0000_0000_0000)) by (bit_vector);
        }
        if negative || (exponent == 0x7FF && fraction != 0) || exponent < 1023 {
            0
        } else if exponent >= 1055 {
            u32::MAX
        } else {
            let shift: u64 = 1075 - exponent;
            let significand: u64 = HIDDEN_BIT | fraction;
            let whole: u64 = significand >> shift;
            proof {
                assert((0x10_0000_0000_0000u64 | fraction) == 0x10_0000_0000_0000u64 + fraction)
                    by (bit_vector)
                    requires
                        fraction < 0x10_0000_0000_0000u64,
                ;
                assert((significand >> shift) <= 0xFFFF_FFFFu64) by (bit_vector)
                    requires
                        significand < 0x20_0000_0000_0000u64,
                        21 <= shift <= 52,
                ;
                lemma_u64_shr_is_div(significand, shift);
            }
            whole as u32
        }
    }
}

/// The scale that doubles an image has the whole part two, and the scale of
/// an image at its own size has the whole part one.
pub proof fn lemma_whole_of_small_scales()
    ensures
        (Scale { bits: ONE_BITS }).whole() == 1,
        (Scale { bits: TWO_BITS }).whole() == 2,
        !(Scale { bits: TWO_BITS }).is_one(),
{
    vstd::arithmetic::power2::lemma2_to64_rest();
    let one = Scale { bits: ONE_BITS };
    let two = Scale { bits: TWO_BITS };
    assert((1075 - one.exponent()) as nat == 52 && (1075 - two.exponent()) as nat == 51);
}

} // verus!
