//! Real numbers as the record holds them: IEEE 754 binary64 values, kept by
//! their bit pattern.
//!
//! The window system measures in whole pixels, the record stores real
//! numbers. This module is the bridge: it says which real a bit pattern
//! denotes, turns a real into a pixel count by dropping the fractional part
//! and saturating at the ends of the pixel range, and builds the real that
//! denotes a given pixel count.

use vstd::prelude::*;
use vstd::arithmetic::power2::*;
use vstd::bits::*;
use vstd::std_specs::bits::*;

verus! {

/// A binary64 value: one sign bit, eleven exponent bits, fifty-two fraction
/// bits, most significant first.
#[derive(Clone, Copy, Debug, PartialEq, Eq, Structural)]
pub struct Binary64 {
    pub bits: u64,
}

impl Binary64 {
    /// The sign bit is set. This holds of negative zero too.
    pub open spec fn negative(self) -> bool {
        self.bits >= 0x8000_0000_0000_0000
    }

    /// The biased exponent field.
    pub open spec fn exponent(self) -> nat {
        ((self.bits / 0x10_0000_0000_0000) % 0x800) as nat
    }

    /// The fraction field.
    pub open spec fn fraction(self) -> nat {
        (self.bits % 0x10_0000_0000_0000) as nat
    }

    /// Neither an infinity nor a NaN.
    pub open spec fn finite(self) -> bool {
        self.exponent() != 0x7ff
    }

    /// Not a number.
    pub open spec fn nan(self) -> bool {
        self.exponent() == 0x7ff && self.fraction() != 0
    }

    /// The fraction with the implicit leading bit that every normal value has.
    pub open spec fn significand(self) -> nat {
        if self.exponent() == 0 {
            self.fraction()
        } else {
            0x10_0000_0000_0000 + self.fraction()
        }
    }

    /// The magnitude of a finite value, counted in steps of 2^-1074, the
    /// spacing of the smallest subnormals. Every finite binary64 value is a
    /// whole number of such steps.
    pub open spec fn steps(self) -> nat {
        if self.exponent() == 0 {
            self.significand()
        } else {
            self.significand() * pow2((self.exponent() - 1) as nat)
        }
    }

    /// The value is finite, not negative, and equal to the whole number `n`.
    pub open spec fn denotes(self, n: nat) -> bool {
        &&& !self.negative()
        &&& self.finite()
        &&& self.steps() == n * pow2(1074)
    }

    /// The magnitude of a finite value without its fractional part.
    pub open spec fn truncated(self) -> nat {
        self.steps() / pow2(1074)
    }

    /// The pixel count that a real stands for: its value with the fractional
    /// part dropped, held to the range of `u32`. A NaN and every negative
    /// value give 0; positive infinity and every value past the range give
    /// `u32::MAX`.
    pub open spec fn pixels(self) -> u32 {
        if self.nan() || self.negative() {
            0
        } else if !self.finite() || self.truncated() > u32::MAX {
            u32::MAX
        } else {
            self.truncated() as u32
        }
    }

    /// The real that denotes a pixel count. There is exactly one
    /// (`lemma_denotes_one`, `lemma_of_pixels`).
    pub open spec fn of_pixels(pixels: u32) -> Binary64 {
        choose|value: Binary64| value.denotes(pixels as nat)
    }

    /// The pixel count that this real stands for.
    pub fn to_pixels(self) -> (pixels: u32)
        ensures
            pixels == self.pixels(),
    {
        let bits: u64 = self.bits;
        let exponent: u64 = (bits >> 52) & 0x7ff;
        let fraction: u64 = bits & 0xf_ffff_ffff_ffff;
        proof {
            assert(exponent == (bits / 0x10_0000_0000_0000) % 0x800) by (bit_vector)
                requires
                    exponent == (bits >> 52) & 0x7ff,
            ;
            assert(fraction == bits % 0x10_0000_0000_0000) by (bit_vector)
                requires
                    fraction == bits & 0xf_ffff_ffff_ffff,
            ;
            if exponent != 0x7ff {
                lemma_truncated(self);
            }
        }
        if bits >= 0x8000_0000_0000_0000 {
            0
        } else if exponent == 0x7ff {
            if fraction == 0 {
                u32::MAX
            } else {
                0
            }
        } else if exponent < 1023 {
            0
        } else if exponent > 1054 {
            u32::MAX
        } else {
            let significand: u64 = fraction | 0x10_0000_0000_0000;
            let shift: u64 = 1075 - exponent;
            let whole: u64 = significand >> shift;
            proof {
                assert(significand == 0x10_0000_0000_0000 + fraction) by (bit_vector)
                    requires
                        fraction < 0x10_0000_0000_0000,
                        significand == fraction | 0x10_0000_0000_0000,
                ;
                assert(whole <= 0xffff_ffff) by (bit_vector)
                    requires
                        significand < 0x20_0000_0000_0000,
                        21 <= shift <= 52,
                        whole == significand >> shift,
                ;
                lemma_u64_shr_is_div(significand, shift);
            }
            whole as u32
        }
    }

    /// The real that denotes `pixels`.
    pub fn from_pixels(pixels: u32) -> (value: Binary64)
        ensures
            value == Binary64::of_pixels(pixels),
    {
        if pixels == 0 {
            let zero: Binary64 = Binary64 { bits: 0 };
            proof {
                lemma_zero(zero);
                lemma_of_pixels(pixels);
                lemma_denotes_one(zero, Binary64::of_pixels(pixels), 0);
            }
            return zero;
        }
        proof {
            axiom_u32_leading_zeros(pixels);
        }
        let top: u32 = 31 - pixels.leading_zeros();
        let wide: u64 = pixels as u64;
        let exponent: u64 = 1023 + top as u64;
        let shift: u64 = 52 - top as u64;
        let bits: u64 = (exponent << 52) | ((wide << shift) & 0xf_ffff_ffff_ffff);
        let value: Binary64 = Binary64 { bits };
        proof {
            assert(bits == encoding(pixels));
            lemma_encoding(pixels);
            lemma_of_pixels(pixels);
            lemma_denotes_one(value, Binary64::of_pixels(pixels), pixels as nat);
        }
        value
    }
}

/// The index of the highest bit that is set in a positive `pixels`.
spec fn top_bit(pixels: u32) -> u32 {
    (31 - u32_leading_zeros(pixels)) as u32
}

/// The bit pattern that `from_pixels` builds for a positive `pixels`: the top
/// bit of `pixels` gives the exponent, the bits below it are moved up to the
/// head of the fraction.
spec fn encoding(pixels: u32) -> u64 {
    let top: u32 = top_bit(pixels);
    let exponent: u64 = (1023 + top as u64) as u64;
    let shift: u64 = (52 - top as u64) as u64;
    (exponent << 52) | (((pixels as u64) << shift) & 0xf_ffff_ffff_ffff)
}

/// For every finite value, what `truncated` is by the size of the exponent:
/// nothing below 1, the significand shifted right in the range of `u32`,
/// and past `u32::MAX` above.
pub proof fn lemma_truncated(value: Binary64)
    requires
        value.finite(),
    ensures
        value.exponent() < 1023 ==> value.truncated() == 0,
        1023 <= value.exponent() <= 1075 ==> value.truncated() == value.significand() / pow2(
            (1075 - value.exponent()) as nat,
        ),
        1054 < value.exponent() ==> value.truncated() > u32::MAX,
{
    let e: nat = value.exponent();
    let s: nat = value.significand();
    lemma2_to64();
    lemma2_to64_rest();
    lemma_pow2_pos(1074);
    if e == 0 {
        lemma_pow2_strictly_increases(52, 1074);
        assert(value.steps() / pow2(1074) == 0) by (nonlinear_arith)
            requires
                value.steps() < pow2(1074),
        ;
    } else if e <= 1075 {
        let k: nat = (1075 - e) as nat;
        let a: nat = (e - 1) as nat;
        lemma_pow2_adds(a, k);
        lemma_pow2_pos(a);
        lemma_pow2_pos(k);
        assert((s * pow2(a)) / (pow2(a) * pow2(k)) == s / pow2(k)) by (nonlinear_arith)
            requires
                pow2(a) > 0,
                pow2(k) > 0,
        ;
        if e < 1023 {
            if k > 53 {
                lemma_pow2_strictly_increases(53, k);
            }
            assert(s / pow2(k) == 0) by (nonlinear_arith)
                requires
                    s < pow2(k),
            ;
        } else if e > 1054 {
            if k < 20 {
                lemma_pow2_strictly_increases(k, 20);
            }
            assert(s / pow2(k) >= 0x1_0000_0000) by (nonlinear_arith)
                requires
                    s >= 0x10_0000_0000_0000,
                    0 < pow2(k) <= 0x10_0000,
            ;
        }
    } else {
        let a: nat = (e - 1) as nat;
        lemma_pow2_strictly_increases(1074, a);
        assert((s * pow2(a)) / pow2(1074) >= s) by (nonlinear_arith)
            requires
                0 < pow2(1074) < pow2(a),
        ;
    }
}

/// The all-zero pattern denotes zero.
proof fn lemma_zero(zero: Binary64)
    requires
        zero.bits == 0,
    ensures
        zero.denotes(0),
{
    assert(0 * pow2(1074) == 0) by (nonlinear_arith);
}

/// The pattern that `encoding` gives denotes `pixels`.
proof fn lemma_encoding(pixels: u32)
    requires
        pixels > 0,
    ensures
        (Binary64 { bits: encoding(pixels) }).denotes(pixels as nat),
{
    axiom_u32_leading_zeros(pixels);
    let zeros: u32 = u32_leading_zeros(pixels);
    let top: u32 = top_bit(pixels);
    let above: u32 = (32 - zeros) as u32;
    let wide: u64 = pixels as u64;
    let exponent: u64 = (1023 + top as u64) as u64;
    let shift: u64 = (52 - top as u64) as u64;
    let significand: u64 = wide << shift;
    let fraction: u64 = significand & 0xf_ffff_ffff_ffff;
    let bits: u64 = (exponent << 52) | fraction;
    let value: Binary64 = Binary64 { bits };
    assert(bits == encoding(pixels));
    lemma2_to64();
    lemma2_to64_rest();

    // The bits of `pixels` end at `top`, so `pixels` is below 2^(top + 1).
    assert(wide < pow2(above as nat)) by {
        if above < 32 {
            lemma_u32_shr_is_div(pixels, above);
            lemma_pow2_pos(above as nat);
            assert(wide < pow2(above as nat)) by (nonlinear_arith)
                requires
                    wide as nat / pow2(above as nat) == 0,
                    pow2(above as nat) > 0,
            ;
        }
    }
    lemma_pow2_adds(above as nat, shift as nat);
    lemma_pow2_pos(shift as nat);
    assert(wide * pow2(shift as nat) < pow2(53)) by (nonlinear_arith)
        requires
            wide < pow2(above as nat),
            pow2(above as nat) * pow2(shift as nat) == pow2(53),
            pow2(shift as nat) > 0,
    ;
    lemma_u64_shl_is_mul(wide, shift);
    assert(significand == wide * pow2(shift as nat));

    // The bit at `top` is set, so the shifted value has its bit 52 set.
    assert(significand >= 0x10_0000_0000_0000) by (bit_vector)
        requires
            top < 32,
            (pixels >> top) & 1u32 != 0u32,
            wide == pixels as u64,
            shift == 52 - top,
            significand == wide << shift,
    ;
    assert(fraction + 0x10_0000_0000_0000 == significand) by (bit_vector)
        requires
            0x10_0000_0000_0000 <= significand < 0x20_0000_0000_0000,
            fraction == significand & 0xf_ffff_ffff_ffff,
    ;
    assert(bits % 0x10_0000_0000_0000 == fraction && (bits / 0x10_0000_0000_0000) % 0x800
        == exponent && bits < 0x8000_0000_0000_0000) by (bit_vector)
        requires
            bits == (exponent << 52) | fraction,
            exponent < 0x7ff,
            fraction < 0x10_0000_0000_0000,
    ;
    assert(value.exponent() == exponent);
    assert(value.fraction() == fraction);
    assert(value.significand() == significand);
    let rest: nat = (exponent - 1) as nat;
    lemma_pow2_adds(shift as nat, rest);
    assert((wide * pow2(shift as nat)) * pow2(rest) == wide * pow2(1074)) by (nonlinear_arith)
        requires
            pow2(shift as nat) * pow2(rest) == pow2(1074),
    ;
}

/// Among finite values a smaller exponent field means a smaller magnitude,
/// whatever the fractions are.
proof fn lemma_steps_by_exponent(a: Binary64, b: Binary64)
    requires
        a.exponent() < b.exponent(),
    ensures
        a.steps() < b.steps(),
{
    let low: nat = if a.exponent() == 0 { 0 } else { (a.exponent() - 1) as nat };
    let high: nat = (b.exponent() - 1) as nat;
    lemma2_to64();
    lemma_pow2_pos(low);
    assert(a.steps() == a.significand() * pow2(low)) by {
        if a.exponent() == 0 {
            assert(a.significand() * pow2(0) == a.significand()) by (nonlinear_arith)
                requires
                    pow2(0) == 1,
            ;
        }
    }
    if low < high {
        let gap: nat = (high - low) as nat;
        lemma_pow2_adds(low, gap);
        if gap > 1 {
            lemma_pow2_strictly_increases(1, gap);
        }
        assert(a.significand() * pow2(low) < b.significand() * pow2(high)) by (nonlinear_arith)
            requires
                a.significand() < 0x20_0000_0000_0000,
                b.significand() >= 0x10_0000_0000_0000,
                pow2(high) == pow2(low) * pow2(gap),
                pow2(gap) >= 2,
                pow2(low) > 0,
        ;
    } else {
        assert(a.exponent() == 0 && b.exponent() == 1);
    }
}

/// Two reals that denote the same whole number are the same real: no whole
/// number has two bit patterns.
pub proof fn lemma_denotes_one(a: Binary64, b: Binary64, n: nat)
    requires
        a.denotes(n),
        b.denotes(n),
    ensures
        a == b,
{
    if a.exponent() < b.exponent() {
        lemma_steps_by_exponent(a, b);
    } else if b.exponent() < a.exponent() {
        lemma_steps_by_exponent(b, a);
    } else {
        if a.exponent() != 0 {
            let rest: nat = (a.exponent() - 1) as nat;
            lemma_pow2_pos(rest);
            assert(a.significand() == b.significand()) by (nonlinear_arith)
                requires
                    a.significand() * pow2(rest) == b.significand() * pow2(rest),
                    pow2(rest) > 0,
            ;
        }
        assert(a.fraction() == b.fraction());
        assert(a.bits == b.bits);
    }
}

/// Every pixel count has its real, and that real gives the pixel count back.
pub proof fn lemma_of_pixels(pixels: u32)
    ensures
        Binary64::of_pixels(pixels).denotes(pixels as nat),
        Binary64::of_pixels(pixels).pixels() == pixels,
{
    if pixels == 0 {
        let zero: Binary64 = Binary64 { bits: 0 };
        lemma_zero(zero);
        assert(zero.denotes(pixels as nat));
    } else {
        lemma_encoding(pixels);
    }
    let value: Binary64 = Binary64::of_pixels(pixels);
    assert(value.denotes(pixels as nat));
    lemma_pow2_pos(1074);
    let count: nat = pixels as nat;
    assert((count * pow2(1074)) / pow2(1074) == count) by (nonlinear_arith)
        requires
            pow2(1074) > 0,
    ;
}

} // verus!
