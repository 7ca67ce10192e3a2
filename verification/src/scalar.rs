//! Shader scalars as raw 32-bit words.
//!
//! The records handed to the shaders are made of 32-bit fields, most of them
//! single-precision numbers. This library never computes with such numbers; it
//! only places them. A [`Scalar`] therefore carries the binary32 encoding of a
//! number, sign in the top bit, eight exponent bits, twenty-three fraction bits.

use vstd::prelude::*;

verus! {

/// Encoding of `0.0`.
pub const ZERO_BITS: u32 = 0x0000_0000;

/// Encoding of `1.0`.
pub const ONE_BITS: u32 = 0x3F80_0000;

/// Two to the power twenty-three: the weight of the lowest exponent bit, and
/// the implicit leading bit of a normal fraction.
pub const HIDDEN_BIT: u32 = 0x0080_0000;

/// Exponent bias of the encoding.
pub const EXPONENT_BIAS: u32 = 127;

/// A single-precision number, held as its encoding.
#[derive(Clone, Copy, Debug, PartialEq, Eq, Structural)]
pub struct Scalar {
    pub bits: u32,
}

/// The largest power of two that does not exceed `v`; 1 for `v` below 2.
pub open spec fn leading_power(v: nat) -> nat
    decreases v,
{
    if v <= 1 {
        1
    } else {
        2 * leading_power(v / 2)
    }
}

/// The exponent of [`leading_power`]: the position of the highest set bit.
pub open spec fn leading_exponent(v: nat) -> nat
    decreases v,
{
    if v <= 1 {
        0
    } else {
        1 + leading_exponent(v / 2)
    }
}

/// The encoding of the single-precision number nearest to the integer `v`,
/// a tie going to the neighbour whose fraction is even.
///
/// Up to twenty-four significant bits the integer is representable and the
/// fraction is the integer with its leading bit removed, shifted up. Above
/// that, the low `d` part is cut off and decides the rounding; a carry out of
/// the fraction moves into the exponent by plain addition.
pub open spec fn single_bits(v: nat) -> nat {
    if v == 0 {
        0
    } else {
        let p = leading_power(v);
        let exponent = (127 + leading_exponent(v)) * 0x80_0000;
        if p <= 0x80_0000 {
            (exponent + (v - p) * (0x80_0000nat / p)) as nat
        } else {
            let d = p / 0x80_0000;
            let kept = v / d;
            let cut = v % d;
            let up: nat = if 2 * cut > d || (2 * cut == d && kept % 2 == 1) {
                1
            } else {
                0
            };
            (exponent + (kept - 0x80_0000) + up) as nat
        }
    }
}

/// `leading_power` brackets its argument and is two to the `leading_exponent`.
pub proof fn lemma_leading_power(v: nat)
    requires
        v >= 1,
    ensures
        leading_power(v) <= v < 2 * leading_power(v),
        leading_power(v) == vstd::arithmetic::power2::pow2(leading_exponent(v)),
    decreases v,
{
    vstd::arithmetic::power2::lemma2_to64();
    if v > 1 {
        lemma_leading_power(v / 2);
        vstd::arithmetic::power2::lemma_pow2_unfold(leading_exponent(v));
    }
}

/// A 32-bit integer has its highest set bit at position 31 or below.
pub proof fn lemma_leading_exponent_bound(v: nat)
    requires
        v <= u32::MAX,
    ensures
        leading_exponent(v) <= 31,
        leading_power(v) <= 0x8000_0000,
{
    vstd::arithmetic::power2::lemma2_to64();
    if v >= 1 {
        lemma_leading_power(v);
        let e = leading_exponent(v);
        if e >= 32 {
            if e > 32 {
                vstd::arithmetic::power2::lemma_pow2_strictly_increases(32, e);
            }
            assert(vstd::arithmetic::power2::pow2(e) >= 0x1_0000_0000);
        }
        if e < 31 {
            vstd::arithmetic::power2::lemma_pow2_strictly_increases(e, 31);
        }
    }
}

/// The significand of a normal encoding: the fraction behind the hidden bit,
/// as an integer of twenty-four bits.
pub open spec fn significand(bits: nat) -> nat {
    0x80_0000 + bits % 0x80_0000
}

/// The exponent of a normal encoding, its bias removed. The number encoded
/// is `significand` times two to the power of `binade - 23`.
pub open spec fn binade(bits: nat) -> int {
    bits / 0x80_0000 - 127
}

/// An integer of up to twenty-four bits is encoded exactly: the significand,
/// scaled down by twenty-three bits and up by the exponent, is the integer.
pub proof fn lemma_single_exact(v: nat)
    requires
        1 <= v < 0x100_0000,
    ensures
        binade(single_bits(v)) == leading_exponent(v),
        leading_exponent(v) <= 23,
        significand(single_bits(v)) * vstd::arithmetic::power2::pow2(leading_exponent(v)) == v
            * 0x80_0000,
{
    vstd::arithmetic::power2::lemma2_to64();
    lemma_leading_power(v);
    let e = leading_exponent(v);
    let p = leading_power(v) as int;
    if e > 23 {
        if e > 24 {
            vstd::arithmetic::power2::lemma_pow2_strictly_increases(24, e);
        }
        assert(false);
    }
    vstd::arithmetic::power2::lemma_pow2_adds(e, (23 - e) as nat);
    let q = vstd::arithmetic::power2::pow2((23 - e) as nat) as int;
    assert(p * q == 0x80_0000);
    vstd::arithmetic::div_mod::lemma_fundamental_div_mod_converse(0x80_0000, p, q, 0);
    assert(0x80_0000int / p == q);
    let fraction = (v - p) * q;
    assert(0 <= fraction < 0x80_0000 && fraction == v * q - 0x80_0000) by (nonlinear_arith)
        requires
            p <= v < 2 * p,
            p * q == 0x80_0000,
            p >= 1,
            q >= 1,
            fraction == (v - p) * q,
    ;
    let bits = single_bits(v) as int;
    assert(bits == (127 + e) * 0x80_0000 + fraction);
    vstd::arithmetic::div_mod::lemma_fundamental_div_mod_converse(
        bits,
        0x80_0000,
        127 + e as int,
        fraction,
    );
    assert((v * q) * p == v * 0x80_0000) by (nonlinear_arith)
        requires
            p * q == 0x80_0000,
    ;
}

/// A larger integer is encoded as the nearest integer that twenty-four bits
/// and an exponent can express, and of two equally near ones as the one
/// whose significand is even. `spacing` is the distance between neighbouring
/// expressible integers around `v`; the encoded integer is `nearest`.
pub proof fn lemma_single_nearest(v: nat) -> (r: (int, int))
    requires
        0x100_0000 <= v <= u32::MAX,
    ensures
        ({
            let (nearest, spacing) = r;
            let bits = single_bits(v);
            &&& spacing == vstd::arithmetic::power2::pow2((leading_exponent(v) - 23) as nat)
            &&& binade(bits) >= 24
            &&& nearest == significand(bits) * vstd::arithmetic::power2::pow2(
                (binade(bits) - 23) as nat,
            )
            &&& nearest % spacing == 0
            &&& 2 * (nearest - v) <= spacing
            &&& 2 * (v - nearest) <= spacing
            &&& (2 * (nearest - v) == spacing || 2 * (v - nearest) == spacing) ==> (nearest
                / spacing) % 2 == 0
        }),
{
    vstd::arithmetic::power2::lemma2_to64();
    lemma_leading_power(v);
    lemma_leading_exponent_bound(v);
    let e = leading_exponent(v);
    let p = leading_power(v) as int;
    if e < 24 {
        if e < 23 {
            vstd::arithmetic::power2::lemma_pow2_strictly_increases(e, 23);
        }
        assert(false);
    }
    lemma_kept_reaches_hidden_bit(v);
    let d = p / 0x80_0000;
    vstd::arithmetic::power2::lemma_pow2_adds((e - 23) as nat, 23);
    let spacing = vstd::arithmetic::power2::pow2((e - 23) as nat) as int;
    assert(d == spacing) by (nonlinear_arith)
        requires
            p == d * 0x80_0000,
            p == spacing * 0x80_0000,
    ;
    let kept = v as int / d;
    let cut = v as int % d;
    vstd::arithmetic::div_mod::lemma_fundamental_div_mod(v as int, d);
    vstd::arithmetic::div_mod::lemma_mod_bound(v as int, d);
    let up: int = if 2 * cut > d || (2 * cut == d && kept % 2 == 1) {
        1
    } else {
        0
    };
    let rounded = kept + up;
    let bits = single_bits(v) as int;
    assert(bits == (127 + e) * 0x80_0000 + (rounded - 0x80_0000));
    let nearest = rounded * d;
    assert(nearest - v == up * d - cut) by (nonlinear_arith)
        requires
            nearest == (kept + up) * d,
            v == d * kept + cut,
    ;
    assert(up * d == if up == 1 {
        d
    } else {
        0
    }) by (nonlinear_arith)
        requires
            up == 0 || up == 1,
    ;
    vstd::arithmetic::div_mod::lemma_fundamental_div_mod_converse(nearest, d, rounded, 0);
    if rounded < 0x100_0000 {
        vstd::arithmetic::div_mod::lemma_fundamental_div_mod_converse(
            bits,
            0x80_0000,
            127 + e as int,
            rounded - 0x80_0000,
        );
        assert(significand(bits as nat) == rounded);
        assert(binade(bits as nat) == e);
    } else {
        assert(bits == (128 + e) * 0x80_0000);
        vstd::arithmetic::div_mod::lemma_fundamental_div_mod_converse(
            bits,
            0x80_0000,
            128 + e as int,
            0,
        );
        assert(significand(bits as nat) == 0x80_0000);
        assert(binade(bits as nat) == e + 1);
        vstd::arithmetic::power2::lemma_pow2_unfold((e + 1 - 23) as nat);
        assert(0x80_0000 * (2 * d) == 0x100_0000 * d) by (nonlinear_arith);
    }
    (nearest, spacing)
}

/// Numbers from `low` up to, but not including, `high`.
#[derive(Clone, Copy, Debug, PartialEq, Eq, Structural)]
pub struct ScalarRange {
    pub low: Scalar,
    pub high: Scalar,
}

impl ScalarRange {
    /// `s` is at least `low` and less than `high`.
    pub open spec fn contains(self, s: Scalar) -> bool {
        self.low.ordinal() <= s.ordinal() < self.high.ordinal()
    }

    /// Whether `s` is at least `low` and less than `high`.
    pub fn holds(&self, s: Scalar) -> (inside: bool)
        ensures
            inside == self.contains(s),
    {
        !s.below(&self.low) && s.below(&self.high)
    }
}

impl Scalar {
    /// The encoding read as a signed magnitude: the low thirty-one bits,
    /// negated where the sign bit is set.
    ///
    /// Numbers are encoded with their magnitude rising in the low bits, so
    /// one number is less than another exactly when its ordinal is less.
    /// Both zeros have ordinal zero. Encodings that stand for no number lie
    /// beyond both infinities.
    pub open spec fn ordinal(self) -> int {
        if self.bits < 0x8000_0000 {
            self.bits as int
        } else {
            0x8000_0000 - self.bits
        }
    }

    /// The encoding stands for a number that is neither infinite nor
    /// undefined: its exponent bits are not all set.
    pub open spec fn is_finite(self) -> bool {
        self.bits % 0x8000_0000 < 0x7F80_0000
    }

    /// Whether the number is less than `other`.
    pub fn below(&self, other: &Scalar) -> (less: bool)
        ensures
            less == (self.ordinal() < other.ordinal()),
    {
        signed_magnitude(self.bits) < signed_magnitude(other.bits)
    }

    /// The scalar with the given encoding.
    pub fn from_bits(bits: u32) -> (s: Scalar)
        ensures
            s.bits == bits,
    {
        Scalar { bits }
    }

    /// `0.0`.
    pub fn zero() -> (s: Scalar)
        ensures
            s.bits == ZERO_BITS,
    {
        Scalar { bits: ZERO_BITS }
    }

    /// `1.0`.
    pub fn one() -> (s: Scalar)
        ensures
            s.bits == ONE_BITS,
    {
        Scalar { bits: ONE_BITS }
    }

    /// `1.0` for `true`, `0.0` for `false`: how a switch travels in a record
    /// of scalars.
    pub fn from_flag(flag: bool) -> (s: Scalar)
        ensures
            s.bits == if flag { ONE_BITS } else { ZERO_BITS },
    {
        if flag {
            Scalar { bits: ONE_BITS }
        } else {
            Scalar { bits: ZERO_BITS }
        }
    }

    /// The single-precision number nearest to `v`, ties to even.
    pub fn from_u32(v: u32) -> (s: Scalar)
        ensures
            s.bits == single_bits(v as nat),
    {
        if v == 0 {
            return Scalar { bits: ZERO_BITS };
        }
        let value: u64 = v as u64;
        let mut rest: u64 = value;
        let mut power: u64 = 1;
        let mut exponent: u64 = 0;
        proof {
            lemma_leading_exponent_bound(v as nat);
        }
        while rest > 1
            invariant
                value == v,
                leading_exponent(value as nat) <= 31,
                1 <= rest <= value,
                1 <= power,
                power * rest <= value,
                value < power * (rest + 1),
                leading_power(value as nat) == power * leading_power(rest as nat),
                leading_exponent(value as nat) == exponent + leading_exponent(rest as nat),
            decreases rest,
        {
            proof {
                let half = (rest / 2) as int;
                let p = power as int;
                let lp = leading_power((rest / 2) as nat) as int;
                assert(p * (2 * lp) == (2 * p) * lp) by (nonlinear_arith);
                assert((2 * p) * half <= p * rest) by (nonlinear_arith)
                    requires
                        2 * half <= rest,
                        p >= 1,
                ;
                assert(p * (rest + 1) <= (2 * p) * (half + 1)) by (nonlinear_arith)
                    requires
                        rest + 1 <= 2 * (half + 1),
                        p >= 1,
                ;
                assert(p * rest >= 2 * p) by (nonlinear_arith)
                    requires
                        rest >= 2,
                        p >= 1,
                ;
            }
            rest = rest / 2;
            power = power * 2;
            exponent = exponent + 1;
        }
        proof {
            lemma_leading_power(v as nat);
            lemma_leading_exponent_bound(v as nat);
            assert(power * 1 == power) by (nonlinear_arith);
        }
        let hidden: u64 = HIDDEN_BIT as u64;
        let high: u64 = (EXPONENT_BIAS as u64 + exponent) * hidden;
        if power <= hidden {
            let scale: u64 = hidden / power;
            proof {
                let p = power as int;
                let s = scale as int;
                let f = (value - power) as int;
                assert(p * s <= 0x80_0000) by (nonlinear_arith)
                    requires
                        s == 0x80_0000int / p,
                        p >= 1,
                ;
                assert(f * s <= p * s) by (nonlinear_arith)
                    requires
                        0 <= f <= p,
                        s >= 0,
                ;
            }
            let fraction: u64 = (value - power) * scale;
            Scalar { bits: (high + fraction) as u32 }
        } else {
            proof {
                lemma_kept_reaches_hidden_bit(value as nat);
            }
            let divisor: u64 = power / hidden;
            let kept: u64 = value / divisor;
            let cut: u64 = value % divisor;
            let up: u64 = if 2 * cut > divisor || (2 * cut == divisor && kept % 2 == 1) {
                1
            } else {
                0
            };
            Scalar { bits: (high + (kept - hidden) + up) as u32 }
        }
    }
}

/// What lies between two numbers that are finite is finite.
pub proof fn lemma_between_finite_is_finite(low: Scalar, s: Scalar, high: Scalar)
    requires
        low.is_finite(),
        high.is_finite(),
        low.ordinal() <= s.ordinal() <= high.ordinal(),
    ensures
        s.is_finite(),
{
}

/// The encoding read as a signed magnitude.
fn signed_magnitude(bits: u32) -> (ordinal: i64)
    ensures
        ordinal == (Scalar { bits }).ordinal(),
{
    if bits < 0x8000_0000 {
        bits as i64
    } else {
        0x8000_0000i64 - bits as i64
    }
}

/// Above twenty-four bits the kept part of an integer starts with the hidden
/// bit: it lies between two to the twenty-three and two to the twenty-four.
pub proof fn lemma_kept_reaches_hidden_bit(v: nat)
    requires
        v >= 1,
        leading_power(v) > 0x80_0000,
    ensures
        0x80_0000 <= v / (leading_power(v) / 0x80_0000) < 0x100_0000,
        leading_power(v) == (leading_power(v) / 0x80_0000) * 0x80_0000,
{
    lemma_leading_power(v);
    lemma_power_of_two_multiple(leading_exponent(v));
    let p = leading_power(v) as int;
    let d = p / 0x80_0000;
    assert(p == d * 0x80_0000);
    let k = v as int / d;
    vstd::arithmetic::div_mod::lemma_fundamental_div_mod(v as int, d);
    assert(d * k <= v < d * k + d);
    assert(k >= 0x80_0000) by (nonlinear_arith)
        requires
            d * k + d > v,
            v >= d * 0x80_0000,
            d >= 1,
    ;
    assert(k < 0x100_0000) by (nonlinear_arith)
        requires
            d * k <= v,
            v < 2 * (d * 0x80_0000),
            d >= 1,
    ;
}

/// From the twenty-third on, every power of two is a multiple of two to the
/// twenty-three.
pub proof fn lemma_power_of_two_multiple(e: nat)
    ensures
        vstd::arithmetic::power2::pow2(e) >= 0x80_0000 ==> vstd::arithmetic::power2::pow2(e)
            % 0x80_0000 == 0,
    decreases e,
{
    vstd::arithmetic::power2::lemma2_to64();
    if e <= 23 {
        if e < 23 {
            vstd::arithmetic::power2::lemma_pow2_strictly_increases(e, 23);
        }
    } else {
        lemma_power_of_two_multiple((e - 1) as nat);
        vstd::arithmetic::power2::lemma_pow2_unfold(e);
        if e > 24 {
            vstd::arithmetic::power2::lemma_pow2_strictly_increases(23, (e - 1) as nat);
        }
        let h = vstd::arithmetic::power2::pow2((e - 1) as nat) as int;
        assert((2 * h) % 0x80_0000 == 0) by (nonlinear_arith)
            requires
                h % 0x80_0000 == 0,
        ;
    }
}

} // verus!
