//! IEEE 754 binary32 numbers carried by their bit pattern.
//!
//! The crate never computes in floating point. Where a quantity is a
//! single-precision number, it is held as the 32 bits that encode it, and what
//! those bits mean is defined here with integers: a finite pattern stands for
//! the rational number `± significand * 2^exponent`.

use vstd::arithmetic::div_mod::{
    lemma_basic_div,
    lemma_div_is_ordered,
    lemma_div_multiples_vanish,
    lemma_div_nonincreasing,
    lemma_fundamental_div_mod,
    lemma_mod_bound,
};
use vstd::arithmetic::power2::{
    lemma2_to64,
    lemma2_to64_rest,
    lemma_pow2_pos,
    lemma_pow2_strictly_increases,
    pow2,
};
use vstd::bits::lemma_u64_shl_is_mul;
use vstd::prelude::*;

verus! {

/// A binary32 number, held as the 32 bits that encode it: one sign bit, eight
/// bits of biased exponent, twenty-three bits of fraction.
#[derive(Debug, Clone, Copy, PartialEq, Eq, Structural)]
pub struct Binary32 {
    pub bits: u32,
}

impl Binary32 {
    /// The sign bit is set. True of negative numbers, of `-0`, and of some NaNs.
    pub open spec fn sign_bit(self) -> bool {
        self.bits >= 0x8000_0000
    }

    /// The eight exponent bits, read as an unsigned number.
    pub open spec fn biased_exponent(self) -> nat {
        ((self.bits / 0x80_0000) % 0x100) as nat
    }

    /// The twenty-three fraction bits, read as an unsigned number.
    pub open spec fn fraction(self) -> nat {
        (self.bits % 0x80_0000) as nat
    }

    pub open spec fn is_nan(self) -> bool {
        self.biased_exponent() == 255 && self.fraction() != 0
    }

    pub open spec fn is_infinite(self) -> bool {
        self.biased_exponent() == 255 && self.fraction() == 0
    }

    pub open spec fn is_finite(self) -> bool {
        self.biased_exponent() != 255
    }

    /// `+0` or `-0`.
    pub open spec fn is_zero(self) -> bool {
        self.biased_exponent() == 0 && self.fraction() == 0
    }

    /// The integer `m` of a finite pattern's magnitude `m * 2^e`. It carries
    /// the implicit leading one unless the pattern is subnormal.
    pub open spec fn significand(self) -> nat {
        if self.biased_exponent() == 0 {
            self.fraction()
        } else {
            self.fraction() + 0x80_0000
        }
    }

    /// The exponent `e` of a finite pattern's magnitude `m * 2^e`.
    pub open spec fn exponent(self) -> int {
        if self.biased_exponent() == 0 {
            -149
        } else {
            self.biased_exponent() - 150
        }
    }

    /// Numerator of the magnitude of a finite pattern, written as a fraction
    /// whose denominator is a power of two.
    pub open spec fn numerator(self) -> nat {
        if self.exponent() >= 0 {
            self.significand() * pow2(self.exponent() as nat)
        } else {
            self.significand()
        }
    }

    /// Denominator of the magnitude of a finite pattern; see
    /// [`Self::numerator`]. The values of the powers of two that occur here are
    /// those of `vstd::arithmetic::power2::lemma2_to64` and its companion.
    pub open spec fn denominator(self) -> nat {
        if self.exponent() >= 0 {
            1
        } else {
            pow2((-self.exponent()) as nat)
        }
    }

    /// Wraps a bit pattern, as `f32::from_bits` does.
    pub fn from_bits(bits: u32) -> (x: Self)
        ensures
            x.bits == bits,
    {
        Binary32 { bits }
    }

    /// The bit pattern, as `f32::to_bits` gives it.
    pub fn to_bits(self) -> (bits: u32)
        ensures
            bits == self.bits,
    {
        self.bits
    }
}

/// `n` times the denominator of `x`, with the sign of `x`: what the numerator
/// of `x` has to divide for the quotient `n / x`.
pub open spec fn signed_dividend(n: nat, x: Binary32) -> int {
    if x.sign_bit() {
        -(n * x.denominator())
    } else {
        (n * x.denominator()) as int
    }
}

/// `floor(n / x)`, computed exactly, for every `x` but the zeros and the NaNs:
/// the largest integer that is not above the quotient. The quotient by an
/// infinity is 0.
pub open spec fn floor_quotient(n: nat, x: Binary32) -> int {
    if x.is_infinite() {
        0
    } else {
        signed_dividend(n, x) / (x.numerator() as int)
    }
}

/// What dividing `n` by `x` and rounding down leaves in a `u32`: the nearest
/// `u32` to `floor(n / x)`.
///
/// Where `x` is a zero or a NaN there is no quotient to take the floor of, and
/// the result is what the limit suggests: `u32::MAX` for a positive `n` over
/// `+0`, and 0 in every other case.
pub open spec fn saturating_floor_quotient(n: u32, x: Binary32) -> u32 {
    if x.is_nan() {
        0
    } else if x.is_zero() {
        if n == 0 || x.sign_bit() {
            0
        } else {
            u32::MAX
        }
    } else if floor_quotient(n as nat, x) < 0 {
        0
    } else if floor_quotient(n as nat, x) > u32::MAX {
        u32::MAX
    } else {
        floor_quotient(n as nat, x) as u32
    }
}

/// The magnitude of a finite pattern other than zero is a quotient of two
/// positive integers.
pub proof fn magnitude_is_positive(x: Binary32)
    requires
        x.is_finite(),
        !x.is_zero(),
    ensures
        x.numerator() > 0,
        x.denominator() > 0,
{
    if x.exponent() < 0 {
        lemma_pow2_pos((-x.exponent()) as nat);
    } else {
        lemma_pow2_pos(x.exponent() as nat);
        assert(x.significand() * pow2(x.exponent() as nat) > 0) by (nonlinear_arith)
            requires
                x.significand() > 0,
                pow2(x.exponent() as nat) > 0,
        ;
    }
}

/// For a finite `x` other than zero, whose magnitude is the fraction
/// `numerator / denominator`, `floor_quotient(n, x)` is the one integer `q`
/// with `q <= n / x < q + 1`. Cleared of fractions, and with the sign of `x`
/// brought over to `n`, that reads
/// `q * numerator <= signed_dividend < (q + 1) * numerator`.
pub proof fn floor_quotient_brackets_quotient(n: nat, x: Binary32)
    requires
        x.is_finite(),
        !x.is_zero(),
    ensures
        floor_quotient(n, x) * x.numerator() <= signed_dividend(n, x),
        signed_dividend(n, x) < (floor_quotient(n, x) + 1) * x.numerator(),
{
    magnitude_is_positive(x);
    let scaled = signed_dividend(n, x);
    let d = x.numerator() as int;
    let q = scaled / d;
    lemma_fundamental_div_mod(scaled, d);
    lemma_mod_bound(scaled, d);
    assert(q * d == d * q && (q + 1) * d == d * q + d) by (nonlinear_arith);
}

/// Dividing by a number that is not below one does not make `n` larger.
pub proof fn floor_quotient_by_one_or_more(n: nat, x: Binary32)
    requires
        x.is_finite(),
        !x.sign_bit(),
        x.denominator() <= x.numerator(),
    ensures
        0 <= floor_quotient(n, x) <= n,
{
    lemma_pow2_pos((-x.exponent()) as nat);
    let num = x.numerator() as int;
    let den = x.denominator() as int;
    assert(0 <= n * den <= n * num) by (nonlinear_arith)
        requires
            0 < den <= num,
    ;
    lemma_basic_div(0, num);
    lemma_div_is_ordered(0, n * den, num);
    lemma_div_is_ordered(n * den, n * num, num);
    lemma_div_multiples_vanish(n as int, num);
}

/// `2^k` for an exponent that a `u64` can hold.
fn power_of_two(k: u32) -> (p: u64)
    requires
        k < 64,
    ensures
        p == pow2(k as nat),
{
    proof {
        lemma2_to64();
        lemma2_to64_rest();
        lemma_pow2_pos(k as nat);
        lemma_pow2_strictly_increases(k as nat, 64);
        lemma_u64_shl_is_mul(1, k as u64);
    }
    1u64 << (k as u64)
}

/// `floor(n / (significand * 2^shift))` for the significand of a normal number.
fn divide_by_multiple(n: u32, significand: u32, shift: u32) -> (q: u32)
    requires
        0x80_0000 <= significand < 0x100_0000,
    ensures
        q == (n as int) / (significand * pow2(shift as nat)),
{
    proof {
        lemma2_to64();
    }
    if shift >= 9 {
        proof {
            if shift > 9 {
                lemma_pow2_strictly_increases(9, shift as nat);
            }
            assert(significand * pow2(shift as nat) >= 0x80_0000 * 0x200) by (nonlinear_arith)
                requires
                    significand >= 0x80_0000,
                    pow2(shift as nat) >= 0x200,
            ;
            lemma_basic_div(n as int, significand * pow2(shift as nat));
        }
        0
    } else {
        let scale: u64 = power_of_two(shift);
        proof {
            lemma_pow2_strictly_increases(shift as nat, 9);
            assert(0 < significand * scale < 0x100_0000 * 0x200) by (nonlinear_arith)
                requires
                    0 < significand < 0x100_0000,
                    0 < scale < 0x200,
            ;
            lemma_div_nonincreasing(n as int, significand * scale);
        }
        let divisor: u64 = (significand as u64) * scale;
        (n as u64 / divisor) as u32
    }
}

/// `floor(n * 2^shift / significand)`, or `u32::MAX` where that is larger.
fn divide_by_fraction(n: u32, significand: u32, shift: u32) -> (q: u32)
    requires
        0 < significand < 0x100_0000,
    ensures
        q == if (n * pow2(shift as nat)) / (significand as int) > u32::MAX {
            u32::MAX as int
        } else {
            (n * pow2(shift as nat)) / (significand as int)
        },
{
    proof {
        lemma2_to64();
        lemma2_to64_rest();
    }
    if n == 0 {
        proof {
            assert(n * pow2(shift as nat) == 0) by (nonlinear_arith)
                requires
                    n == 0,
            ;
            lemma_basic_div(0, significand as int);
        }
        0
    } else if shift >= 56 {
        proof {
            if shift > 56 {
                lemma_pow2_strictly_increases(56, shift as nat);
            }
            let scaled = n * pow2(shift as nat);
            let m = significand as int;
            assert(scaled >= 0x1_0000_0000 * m) by (nonlinear_arith)
                requires
                    scaled == n * pow2(shift as nat),
                    n >= 1,
                    pow2(shift as nat) >= 0x100_0000_0000_0000,
                    0 < m < 0x100_0000,
            ;
            lemma_div_is_ordered(0x1_0000_0000 * m, scaled, m);
            lemma_div_multiples_vanish(0x1_0000_0000, m);
        }
        u32::MAX
    } else {
        let scale: u64 = power_of_two(shift);
        proof {
            lemma_pow2_strictly_increases(shift as nat, 56);
            assert(n * scale < 0x1_0000_0000 * 0x100_0000_0000_0000) by (nonlinear_arith)
                requires
                    n < 0x1_0000_0000,
                    scale < 0x100_0000_0000_0000,
            ;
        }
        let scaled: u128 = (n as u128) * (scale as u128);
        let quotient: u128 = scaled / (significand as u128);
        if quotient > u32::MAX as u128 {
            u32::MAX
        } else {
            quotient as u32
        }
    }
}

/// Divides `n` by `x` and rounds down, saturating at the bounds of `u32`.
pub fn divide_floor(n: u32, x: Binary32) -> (q: u32)
    ensures
        q == saturating_floor_quotient(n, x),
{
    let bits: u32 = x.bits;
    let biased: u32 = (bits / 0x80_0000) % 0x100;
    let fraction: u32 = bits % 0x80_0000;
    if biased == 255 {
        return 0;
    }
    if biased == 0 && fraction == 0 {
        return if n == 0 || bits >= 0x8000_0000 {
            0
        } else {
            u32::MAX
        };
    }
    proof {
        magnitude_is_positive(x);
        lemma_basic_div(0, x.numerator() as int);
    }
    if bits >= 0x8000_0000 {
        proof {
            lemma_div_is_ordered(signed_dividend(n as nat, x), 0, x.numerator() as int);
        }
        return 0;
    }
    proof {
        lemma_div_is_ordered(0, signed_dividend(n as nat, x), x.numerator() as int);
    }
    if biased >= 150 {
        let q = divide_by_multiple(n, fraction + 0x80_0000, biased - 150);
        proof {
            assert(x.exponent() == biased - 150);
            assert(x.numerator() == (fraction + 0x80_0000) * pow2((biased - 150) as nat));
            assert(signed_dividend(n as nat, x) == n) by (nonlinear_arith)
                requires
                    signed_dividend(n as nat, x) == n * x.denominator(),
                    x.denominator() == 1,
            ;
        }
        q
    } else if biased == 0 {
        divide_by_fraction(n, fraction, 149)
    } else {
        divide_by_fraction(n, fraction + 0x80_0000, 150 - biased)
    }
}

} // verus!
