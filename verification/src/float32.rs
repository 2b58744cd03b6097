//! Single-precision numbers as they travel on the wire.
//!
//! The wire carries them in the IEEE 754 binary interchange format. They
//! are kept here as their 32 bits, and what is needed of their value is
//! computed from the bits in whole numbers.

use vstd::prelude::*;
use vstd::arithmetic::power2::{
    lemma2_to64,
    lemma2_to64_rest,
    lemma_pow2_strictly_increases,
    pow2,
};
use vstd::bits::{lemma_u64_shl_is_mul, lemma_u64_shr_is_div};

verus! {

/// A single-precision number, held as its bits: one sign bit, eight
/// exponent bits, twenty-three fraction bits, from the top down.
#[derive(Debug, Clone, Copy, PartialEq, Eq)]
pub struct Float32 {
    pub bits: u32,
}

impl Float32 {
    /// The sign bit is set.
    pub open spec fn negative(self) -> bool {
        self.bits >= 0x8000_0000
    }

    /// The exponent field, with its bias of 127.
    pub open spec fn exponent(self) -> nat {
        (self.bits as nat / 0x80_0000) % 0x100
    }

    /// The fraction field.
    pub open spec fn fraction(self) -> nat {
        self.bits as nat % 0x80_0000
    }

    /// The bits stand for no number.
    pub open spec fn is_nan(self) -> bool {
        self.exponent() == 0xFF && self.fraction() != 0
    }

    /// The bits stand for plus or minus infinity.
    pub open spec fn is_infinite(self) -> bool {
        self.exponent() == 0xFF && self.fraction() == 0
    }

    /// The absolute value of a finite number, rounded down to a whole
    /// number. With a non-zero exponent field `e` and fraction field `f`
    /// the absolute value is `(2^23 + f) * 2^(e - 150)`; with a zero
    /// exponent field it is below one.
    pub open spec fn whole_magnitude(self) -> nat {
        if self.exponent() == 0 {
            0
        } else if self.exponent() >= 150 {
            (0x80_0000 + self.fraction()) * pow2((self.exponent() - 150) as nat)
        } else {
            (0x80_0000 + self.fraction()) / pow2((150 - self.exponent()) as nat)
        }
    }

    /// The number cut down to a whole number, toward zero, and brought
    /// into the range of `i64`: zero for what is no number, the nearest
    /// end of the range for what lies beyond it.
    pub open spec fn truncated(self) -> int {
        if self.is_nan() {
            0
        } else if self.negative() {
            if self.is_infinite() || self.whole_magnitude() > 0x8000_0000_0000_0000 {
                i64::MIN as int
            } else {
                -(self.whole_magnitude() as int)
            }
        } else {
            if self.is_infinite() || self.whole_magnitude() > i64::MAX {
                i64::MAX as int
            } else {
                self.whole_magnitude() as int
            }
        }
    }

    /// The number with the given bit pattern.
    pub fn from_bits(bits: u32) -> (number: Self)
        ensures
            number.bits == bits,
    {
        Float32 { bits }
    }

    /// The bit pattern of the number.
    pub fn to_bits(&self) -> (bits: u32)
        ensures
            bits == self.bits,
    {
        self.bits
    }

    /// The whole seconds in a number of seconds: the number cut toward
    /// zero, within the range of `i64`.
    pub fn whole_seconds(&self) -> (seconds: i64)
        ensures
            seconds == self.truncated(),
    {
        let negative = self.bits >= 0x8000_0000;
        let exponent: u32 = (self.bits / 0x80_0000) % 0x100;
        let fraction: u32 = self.bits % 0x80_0000;
        let significand: u64 = 0x80_0000 + fraction as u64;
        proof {
            lemma2_to64();
            lemma2_to64_rest();
        }
        if exponent == 0xFF && fraction != 0 {
            0
        } else if exponent >= 190 {
            // At least 2^63 in absolute value, or infinite.
            proof {
                if exponent < 0xFF {
                    let scale = pow2((exponent - 150) as nat);
                    if exponent > 190 {
                        lemma_pow2_strictly_increases(40, (exponent - 150) as nat);
                    }
                    assert(significand * scale >= 0x80_0000 * 0x100_0000_0000) by (nonlinear_arith)
                        requires
                            significand >= 0x80_0000,
                            scale >= 0x100_0000_0000,
                    ;
                }
            }
            if negative {
                i64::MIN
            } else {
                i64::MAX
            }
        } else if exponent < 127 {
            // Below one in absolute value.
            proof {
                if exponent != 0 {
                    let scale = pow2((150 - exponent) as nat);
                    if exponent < 126 {
                        lemma_pow2_strictly_increases(24, (150 - exponent) as nat);
                    }
                    assert(significand as nat / scale == 0) by (nonlinear_arith)
                        requires
                            significand < 0x100_0000,
                            scale >= 0x100_0000,
                    ;
                }
            }
            0
        } else {
            let magnitude: u64 = if exponent >= 150 {
                let shift: u64 = (exponent - 150) as u64;
                proof {
                    let scale = pow2(shift as nat);
                    if shift < 39 {
                        lemma_pow2_strictly_increases(shift as nat, 39);
                    }
                    assert(significand * scale < 0x8000_0000_0000_0000) by (nonlinear_arith)
                        requires
                            significand < 0x100_0000,
                            0 <= scale <= 0x80_0000_0000,
                    ;
                    lemma_u64_shl_is_mul(significand, shift);
                }
                significand << shift
            } else {
                let shift: u64 = (150 - exponent) as u64;
                proof {
                    lemma_u64_shr_is_div(significand, shift);
                }
                significand >> shift
            };
            if negative {
                -(magnitude as i64)
            } else {
                magnitude as i64
            }
        }
    }
}

} // verus!
