//! Percentages in whole hundredths of a percent.

use vstd::arithmetic::div_mod::lemma_basic_div;
use vstd::arithmetic::mul::lemma_mul_inequality;
use vstd::arithmetic::power2::{lemma2_to64, lemma_pow2_strictly_increases, pow2};
use vstd::bits::{
    lemma_u64_mul_pow2_le_max_iff_max_shr, lemma_u64_shl_is_mul, lemma_u64_shr_is_div,
};
use vstd::prelude::*;

verus! {

/// The value of one hundred percent, in hundredths.
pub const FULL: u64 = 10_000;

/// A non-negative percentage, held as whole hundredths of a percent.
#[derive(Clone, Copy, Debug, PartialEq, Eq, Structural)]
pub struct Percent {
    pub hundredths: u64,
}

/// `n`, or the largest `u64` where `n` does not fit.
pub open spec fn saturated(n: nat) -> u64 {
    if n > u64::MAX {
        u64::MAX
    } else {
        n as u64
    }
}

/// The share that `part` is of `whole`, in hundredths of a percent and rounded
/// down. An empty whole has a share of zero.
pub open spec fn share_hundredths(part: nat, whole: nat) -> nat {
    if whole == 0 {
        0
    } else {
        part * 10_000 / whole
    }
}

/// A share of a whole never passes one hundred percent while the part stays
/// within the whole.
pub proof fn lemma_share_within_whole(part: nat, whole: nat)
    requires
        part <= whole,
    ensures
        share_hundredths(part, whole) <= 10_000,
{
    if whole != 0 {
        assert(part * 10_000 / whole <= 10_000) by (nonlinear_arith)
            requires
                part <= whole,
                whole > 0,
        ;
    }
}

/// The share of a whole in itself is one hundred percent, unless the whole is
/// empty.
pub proof fn lemma_share_of_the_whole(whole: nat)
    requires
        whole > 0,
    ensures
        share_hundredths(whole, whole) == 10_000,
{
    assert(whole * 10_000 / whole == 10_000) by (nonlinear_arith)
        requires
            whole > 0,
    ;
}

/// The number whose IEEE 754 single-precision bit pattern is `bits`, in
/// hundredths and rounded toward zero.
///
/// The pattern holds a sign bit, eight exponent bits and twenty-three fraction
/// bits; a normal number is `(2^23 + fraction) * 2^(exponent - 150)`. Negative
/// numbers, zeros, subnormal numbers (all below a hundredth) and patterns that
/// are not a number count as zero; positive infinity counts as the largest
/// `u64`.
pub open spec fn single_hundredths(bits: u32) -> nat {
    let negative = bits / 0x8000_0000 == 1;
    let exponent = bits / 0x80_0000 % 0x100;
    let fraction = bits % 0x80_0000;
    let scaled = ((0x80_0000 + fraction) * 100) as nat;
    if negative || exponent == 0 {
        0
    } else if exponent == 0xff {
        if fraction == 0 {
            u64::MAX as nat
        } else {
            0
        }
    } else if exponent >= 150 {
        scaled * pow2((exponent - 150) as nat)
    } else {
        scaled / pow2((150 - exponent) as nat)
    }
}

impl Percent {
    /// The percentage zero.
    pub open spec fn spec_zero() -> Percent {
        Percent { hundredths: 0 }
    }

    /// The share of `part` in `whole` as a percentage.
    pub open spec fn spec_of(part: u64, whole: u64) -> Percent {
        Percent { hundredths: saturated(share_hundredths(part as nat, whole as nat)) }
    }

    /// Whether this percentage lies between zero and one hundred percent.
    pub open spec fn within_full(self) -> bool {
        self.hundredths <= FULL
    }

    /// The percentage zero.
    #[verifier::when_used_as_spec(spec_zero)]
    pub fn zero() -> (p: Percent)
        ensures
            p == Percent::spec_zero(),
    {
        Percent { hundredths: 0 }
    }

    /// The share of `part` in `whole`: `part / whole * 100`, rounded down to a
    /// hundredth of a percent, and zero where `whole` is zero.
    #[verifier::when_used_as_spec(spec_of)]
    pub fn of(part: u64, whole: u64) -> (p: Percent)
        ensures
            p == Percent::spec_of(part, whole),
            part <= whole ==> p.within_full(),
    {
        proof {
            if part <= whole {
                lemma_share_within_whole(part as nat, whole as nat);
            }
        }
        if whole == 0 {
            Percent { hundredths: 0 }
        } else {
            let scaled: u128 = part as u128 * 10_000;
            let share: u128 = scaled / (whole as u128);
            if share > u64::MAX as u128 {
                Percent { hundredths: u64::MAX }
            } else {
                Percent { hundredths: share as u64 }
            }
        }
    }

    /// The percentage that a single-precision reading with this bit pattern
    /// stands for.
    pub open spec fn spec_from_single_bits(bits: u32) -> Percent {
        Percent { hundredths: saturated(single_hundredths(bits)) }
    }

    /// Reads a percentage from the bit pattern of an IEEE 754 single-precision
    /// number, rounding toward zero and keeping the result within `u64`.
    #[verifier::when_used_as_spec(spec_from_single_bits)]
    pub fn from_single_bits(bits: u32) -> (p: Percent)
        ensures
            p == Percent::spec_from_single_bits(bits),
    {
        let negative = bits / 0x8000_0000 == 1;
        let exponent: u32 = bits / 0x80_0000 % 0x100;
        let fraction: u32 = bits % 0x80_0000;
        if negative || exponent == 0 {
            return Percent { hundredths: 0 };
        }
        if exponent == 0xff {
            return Percent { hundredths: if fraction == 0 { u64::MAX } else { 0 } };
        }
        let scaled: u64 = (0x80_0000 + fraction) as u64 * 100;
        if exponent >= 150 {
            let shift: u64 = (exponent - 150) as u64;
            if shift >= 64 {
                proof {
                    lemma2_to64();
                    if shift > 64 {
                        lemma_pow2_strictly_increases(64, shift as nat);
                    }
                    lemma_mul_inequality(1, scaled as int, pow2(shift as nat) as int);
                }
                Percent { hundredths: u64::MAX }
            } else {
                let limit: u64 = u64::MAX >> shift;
                proof {
                    lemma_u64_mul_pow2_le_max_iff_max_shr(scaled, shift, u64::MAX);
                }
                if scaled <= limit {
                    proof {
                        lemma_u64_shl_is_mul(scaled, shift);
                    }
                    Percent { hundredths: scaled << shift }
                } else {
                    Percent { hundredths: u64::MAX }
                }
            }
        } else {
            let shift: u64 = (150 - exponent) as u64;
            if shift >= 64 {
                proof {
                    lemma2_to64();
                    if shift > 64 {
                        lemma_pow2_strictly_increases(64, shift as nat);
                    }
                    lemma_basic_div(scaled as int, pow2(shift as nat) as int);
                }
                Percent { hundredths: 0 }
            } else {
                proof {
                    lemma_u64_shr_is_div(scaled, shift);
                }
                Percent { hundredths: scaled >> shift }
            }
        }
    }
}

} // verus!
