//! The numbers that the encodings stand for.
//!
//! Every finite binary32 number is a whole multiple of 2^-149, the smallest
//! positive one. [`Scalar::units`] gives that multiple as an integer, so what
//! the order, the clamp and the minimum do can be said of numbers, with no
//! rounding and no fractions.

use crate::scalar::{Scalar, INFINITY_BITS, ONE_BITS, SIGN_BIT};
use crate::scrollbar::{
    DEFAULT_HANDLE_HEIGHT_BITS, DEFAULT_SCROLL_SENSITIVITY_BITS, HANDLE_FRACTION_BITS,
};
use vstd::arithmetic::power2::{
    lemma2_to64, lemma_pow2_adds, lemma_pow2_pos, lemma_pow2_strictly_increases,
    lemma_pow2_unfold, pow2,
};
use vstd::prelude::*;

verus! {

/// The number of encodings that share one exponent: two to the power of the
/// twenty-three fraction bits.
pub const FRACTIONS: u32 = 0x80_0000;

/// A scalar taken apart: it stands for `significand * 2^shift` units of
/// 2^-149, below zero where `negative` is set.
#[derive(Clone, Copy, Debug, PartialEq, Eq, Structural)]
pub struct Parts {
    /// Whether the sign bit is set.
    pub negative: bool,
    /// The fraction bits, with the leading one where the format implies it.
    pub significand: u32,
    /// The power of two that the significand is multiplied with.
    pub shift: u32,
}

impl Parts {
    /// The distance from zero, in units of 2^-149.
    pub open spec fn size(self) -> int {
        self.significand * pow2(self.shift as nat)
    }

    /// The number, in units of 2^-149.
    pub open spec fn units(self) -> int {
        if self.negative {
            -self.size()
        } else {
            self.size()
        }
    }
}

impl Scalar {
    /// The exponent bits of the encoding, from 0 to 255.
    pub open spec fn exponent(self) -> nat {
        self.magnitude() / (FRACTIONS as nat)
    }

    /// The fraction bits of the encoding.
    pub open spec fn fraction(self) -> nat {
        self.magnitude() % (FRACTIONS as nat)
    }

    /// Whether the encoding stands for a number: neither an infinity nor a
    /// NaN.
    pub open spec fn is_finite(self) -> bool {
        self.magnitude() < INFINITY_BITS
    }

    /// The encoding taken apart. With exponent bits 0 the significand is the
    /// fraction and nothing is shifted; with any other exponent bits `e` the
    /// significand is the fraction under a leading one, shifted by `e - 1`.
    pub open spec fn spec_parts(self) -> Parts {
        if self.exponent() == 0 {
            Parts { negative: self.sign_negative(), significand: self.fraction() as u32, shift: 0 }
        } else {
            Parts {
                negative: self.sign_negative(),
                significand: (FRACTIONS + self.fraction()) as u32,
                shift: (self.exponent() - 1) as u32,
            }
        }
    }

    /// The number in units of 2^-149. It is the number itself, scaled, where
    /// the scalar is finite; an infinity gets a value beyond every finite
    /// number of its sign.
    pub open spec fn units(self) -> int {
        self.spec_parts().units()
    }

    /// Takes the encoding apart into sign, significand and power of two.
    #[verifier::when_used_as_spec(spec_parts)]
    pub fn parts(self) -> (parts: Parts)
        ensures
            parts == self.spec_parts(),
            parts.significand < 2 * FRACTIONS,
            parts.shift <= 254,
    {
        let negative = self.bits >= SIGN_BIT;
        let magnitude: u32 = if negative {
            self.bits - SIGN_BIT
        } else {
            self.bits
        };
        let exponent: u32 = magnitude / FRACTIONS;
        let fraction: u32 = magnitude % FRACTIONS;
        if exponent == 0 {
            Parts { negative, significand: fraction, shift: 0 }
        } else {
            Parts { negative, significand: FRACTIONS + fraction, shift: exponent - 1 }
        }
    }
}

/// A larger magnitude stands for a number further from zero.
proof fn lemma_sizes_increase(a: Scalar, b: Scalar)
    requires
        a.magnitude() < b.magnitude(),
    ensures
        0 <= a.spec_parts().size() < b.spec_parts().size(),
{
    let ea = a.exponent();
    let fa = a.fraction();
    let eb = b.exponent();
    let fb = b.fraction();
    lemma2_to64();
    assert(ea <= eb);
    if ea == 0 {
        assert(a.spec_parts().size() == fa) by (nonlinear_arith)
            requires
                a.spec_parts().size() == fa * pow2(0),
                pow2(0) == 1,
        ;
    } else {
        lemma_pow2_pos((ea - 1) as nat);
        let pa = pow2((ea - 1) as nat);
        assert(0 <= (FRACTIONS + fa) * pa) by (nonlinear_arith)
            requires
                pa > 0,
                fa >= 0,
        ;
    }
    if ea == eb {
        assert(fa < fb);
        if ea == 0 {
            assert(b.spec_parts().size() == fb) by (nonlinear_arith)
                requires
                    b.spec_parts().size() == fb * pow2(0),
                    pow2(0) == 1,
            ;
        } else {
            let p = pow2((ea - 1) as nat);
            assert((FRACTIONS + fa) * p < (FRACTIONS + fb) * p) by (nonlinear_arith)
                requires
                    fa < fb,
                    p > 0,
            ;
        }
    } else {
        let pb = pow2((eb - 1) as nat);
        lemma_pow2_pos((eb - 1) as nat);
        assert(FRACTIONS * pb <= (FRACTIONS + fb) * pb) by (nonlinear_arith)
            requires
                pb > 0,
                fb >= 0,
        ;
        if ea == 0 {
            assert(FRACTIONS as int <= FRACTIONS * pb) by (nonlinear_arith)
                requires
                    pb >= 1,
            ;
        } else {
            let pa = pow2((ea - 1) as nat);
            lemma_pow2_unfold(ea);
            if ea < eb - 1 {
                lemma_pow2_strictly_increases(ea, (eb - 1) as nat);
            }
            assert((FRACTIONS + fa) * pa < FRACTIONS * pb) by (nonlinear_arith)
                requires
                    fa < FRACTIONS,
                    pa > 0,
                    2 * pa <= pb,
            ;
        }
    }
}

/// The rank orders the encodings exactly as the numbers are ordered: one
/// scalar has the lower rank where it stands for the lesser number, and the
/// same rank where it stands for the same number.
pub proof fn lemma_rank_orders_numbers(a: Scalar, b: Scalar)
    ensures
        a.rank() < b.rank() <==> a.units() < b.units(),
        a.rank() == b.rank() <==> a.units() == b.units(),
{
    let zero = Scalar { bits: 0 };
    lemma2_to64();
    assert(zero.spec_parts().size() == 0) by (nonlinear_arith)
        requires
            zero.spec_parts().size() == 0 * pow2(0),
    ;
    if a.magnitude() == 0 {
        assert(a.spec_parts().size() == 0) by (nonlinear_arith)
            requires
                a.spec_parts().size() == 0 * pow2(0),
        ;
    } else {
        lemma_sizes_increase(zero, a);
    }
    if b.magnitude() == 0 {
        assert(b.spec_parts().size() == 0) by (nonlinear_arith)
            requires
                b.spec_parts().size() == 0 * pow2(0),
        ;
    } else {
        lemma_sizes_increase(zero, b);
    }
    if a.magnitude() < b.magnitude() {
        lemma_sizes_increase(a, b);
    }
    if b.magnitude() < a.magnitude() {
        lemma_sizes_increase(b, a);
    }
}

/// The numbers of the encodings that this crate names: both zeros are 0, one
/// is 1, and the default handle height is 50. The default scroll sensitivity
/// is a tenth and the handle's share a fifth, each too large by one part in
/// 2^26, as near as the format comes.
pub proof fn lemma_named_numbers()
    ensures
        (Scalar { bits: 0 }).units() == 0,
        (Scalar { bits: SIGN_BIT }).units() == 0,
        (Scalar { bits: ONE_BITS }).units() == pow2(149),
        (Scalar { bits: DEFAULT_HANDLE_HEIGHT_BITS }).units() == 50 * pow2(149),
        10 * (Scalar { bits: DEFAULT_SCROLL_SENSITIVITY_BITS }).units() == pow2(149) + pow2(123),
        5 * (Scalar { bits: HANDLE_FRACTION_BITS }).units() == pow2(149) + pow2(123),
{
    lemma2_to64();
    lemma_pow2_adds(23, 126);
    lemma_pow2_adds(18, 131);
    lemma_pow2_adds(26, 123);
    lemma_pow2_adds(27, 122);
    lemma_pow2_unfold(123);
    lemma_rank_orders_numbers(Scalar { bits: 0 }, Scalar { bits: SIGN_BIT });
    let one = Scalar { bits: ONE_BITS };
    assert(one.exponent() == 127 && one.fraction() == 0);
    let fifty = Scalar { bits: DEFAULT_HANDLE_HEIGHT_BITS };
    assert(fifty.exponent() == 132 && fifty.fraction() == 0x48_0000);
    assert((50 * pow2(18)) * pow2(131) == 50 * (pow2(18) * pow2(131))) by (nonlinear_arith);
    let tenth = Scalar { bits: DEFAULT_SCROLL_SENSITIVITY_BITS };
    assert(tenth.exponent() == 123 && tenth.fraction() == 0x4c_cccd);
    assert(tenth.units() == 13421773 * pow2(122));
    assert(pow2(149) == 134217728 * pow2(122));
    let fifth = Scalar { bits: HANDLE_FRACTION_BITS };
    assert(fifth.exponent() == 124 && fifth.fraction() == 0x4c_cccd);
    assert(fifth.units() == 13421773 * pow2(123));
    assert(pow2(149) == 67108864 * pow2(123));
}

/// Comparing scalars compares the numbers: `lt` and `le` hold exactly where
/// neither scalar is a NaN and the numbers are so ordered, a scalar is zero
/// exactly where its number is 0, and it lies in the unit interval exactly
/// where its number lies between 0 and 1.
pub proof fn lemma_order_is_of_numbers(a: Scalar, b: Scalar)
    ensures
        a.lt(b) <==> !a.is_nan() && !b.is_nan() && a.units() < b.units(),
        a.le(b) <==> !a.is_nan() && !b.is_nan() && a.units() <= b.units(),
        a.is_zero() <==> a.units() == 0,
        a.in_unit() <==> !a.is_nan() && 0 <= a.units() <= pow2(149),
        a.in_unit() ==> a.is_finite(),
{
    lemma_rank_orders_numbers(a, b);
    lemma_rank_orders_numbers(a, Scalar { bits: 0 });
    lemma_rank_orders_numbers(a, Scalar { bits: ONE_BITS });
    lemma_named_numbers();
}

/// Clamping a scalar that is no NaN clamps its number between 0 and 1: a
/// number below 0 becomes 0, one above 1 becomes 1, any other stays.
pub proof fn lemma_clamp_unit_of_numbers(x: Scalar)
    requires
        !x.is_nan(),
    ensures
        x.clamp_unit().units() == if x.units() < 0 {
            0
        } else if x.units() > pow2(149) {
            pow2(149) as int
        } else {
            x.units()
        },
{
    lemma_rank_orders_numbers(x, Scalar { bits: 0 });
    lemma_rank_orders_numbers(x, Scalar { bits: ONE_BITS });
    lemma_named_numbers();
}

/// The minimum of two scalars that are no NaN is the lesser of their numbers.
pub proof fn lemma_min_of_numbers(a: Scalar, b: Scalar)
    requires
        !a.is_nan(),
        !b.is_nan(),
    ensures
        a.min(b).units() == if b.units() < a.units() {
            b.units()
        } else {
            a.units()
        },
{
    lemma_rank_orders_numbers(a, b);
}

} // verus!
