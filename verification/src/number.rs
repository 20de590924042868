//! Numeric cells. A workbook stores a number as an IEEE 754 binary64 value;
//! a cell carries its 64 bits, and this module rounds such a value to the
//! integer that a record stores.

use vstd::prelude::*;
use vstd::arithmetic::power2::*;
use vstd::arithmetic::div_mod::*;

verus! {

/// Two to the power 52: the weight of the hidden bit of a binary64 value.
pub const HIDDEN_BIT: u64 = 0x10_0000_0000_0000;

/// Two to the power 63: the sign bit of a binary64 value.
pub const SIGN_BIT: u64 = 0x8000_0000_0000_0000;

/// Two to the power 31: the first magnitude that no positive `i32` reaches.
pub const I32_LIMIT: u64 = 0x8000_0000;

/// Whether the sign bit is set.
pub open spec fn is_negative(bits: u64) -> bool {
    bits >= SIGN_BIT
}

/// The eleven exponent bits.
pub open spec fn exponent_field(bits: u64) -> int {
    (bits as int / HIDDEN_BIT as int) % 2048
}

/// The fifty-two fraction bits.
pub open spec fn fraction_field(bits: u64) -> int {
    bits as int % HIDDEN_BIT as int
}

/// Not a number.
pub open spec fn is_nan(bits: u64) -> bool {
    exponent_field(bits) == 2047 && fraction_field(bits) != 0
}

/// Positive or negative infinity.
pub open spec fn is_infinite(bits: u64) -> bool {
    exponent_field(bits) == 2047 && fraction_field(bits) == 0
}

/// Positive or negative zero: the values that compare equal to `0.0`.
pub open spec fn is_zero(bits: u64) -> bool {
    exponent_field(bits) == 0 && fraction_field(bits) == 0
}

/// The integer `m` in the value `m * 2^scale(bits)` of a finite number.
pub open spec fn significand(bits: u64) -> nat {
    if exponent_field(bits) == 0 {
        fraction_field(bits) as nat
    } else {
        (HIDDEN_BIT + fraction_field(bits)) as nat
    }
}

/// The power of two in the value `significand(bits) * 2^scale(bits)` of a
/// finite number.
pub open spec fn scale(bits: u64) -> int {
    if exponent_field(bits) == 0 {
        -1074
    } else {
        exponent_field(bits) - 1075
    }
}

/// The magnitude of a finite number, rounded to the nearest integer, a half
/// going away from zero: the floor of the magnitude plus one half.
pub open spec fn rounded_magnitude(bits: u64) -> nat {
    let m = significand(bits);
    let s = scale(bits);
    if s >= 0 {
        m * pow2(s as nat)
    } else {
        (m + pow2((-s - 1) as nat)) / pow2((-s) as nat)
    }
}

/// The `i32` nearest to the rounded number: zero for a NaN, the nearest
/// bound of `i32` for a value out of its range.
pub open spec fn rounded_i32(bits: u64) -> int {
    if is_nan(bits) {
        0
    } else if is_infinite(bits) || rounded_magnitude(bits) >= I32_LIMIT {
        if is_negative(bits) {
            i32::MIN as int
        } else {
            i32::MAX as int
        }
    } else if is_negative(bits) {
        -(rounded_magnitude(bits) as int)
    } else {
        rounded_magnitude(bits) as int
    }
}

/// Two to the power `k`.
fn power_of_two(k: u64) -> (p: u64)
    requires
        k <= 53,
    ensures
        p == pow2(k as nat),
        p <= 0x20_0000_0000_0000,
{
    let mut p: u64 = 1;
    let mut i: u64 = 0;
    proof {
        lemma2_to64();
        lemma2_to64_rest();
    }
    while i < k
        invariant
            i <= k <= 53,
            p == pow2(i as nat),
            pow2(53) == 0x20_0000_0000_0000,
        decreases k - i,
    {
        proof {
            lemma_pow2_unfold((i + 1) as nat);
            if i + 1 < 53 {
                lemma_pow2_strictly_increases((i + 1) as nat, 53);
            }
        }
        p = p * 2;
        i += 1;
    }
    proof {
        if k < 53 {
            lemma_pow2_strictly_increases(k as nat, 53);
        }
    }
    p
}

/// A finite number of magnitude at least two to the power 31 rounds to at
/// least that.
proof fn lemma_large_magnitude(bits: u64)
    requires
        1054 <= exponent_field(bits) <= 2046,
    ensures
        rounded_magnitude(bits) >= I32_LIMIT,
{
    let m = significand(bits) as int;
    let s = scale(bits);
    lemma2_to64();
    if s >= 0 {
        let p = pow2(s as nat) as int;
        lemma_pow2_pos(s as nat);
        assert(m * p >= m) by (nonlinear_arith)
            requires
                p >= 1,
                m >= 0,
        ;
    } else {
        let k = (-s) as nat;
        let p = pow2(k) as int;
        let h = pow2((k - 1) as nat) as int;
        lemma_pow2_pos(k);
        if k < 21 {
            lemma_pow2_strictly_increases(k, 21);
        }
        lemma_div_is_ordered(m, m + h, p);
        lemma_div_is_ordered_by_denominator(m, p, 0x20_0000);
        lemma_div_is_ordered(0x10_0000_0000_0000, m, 0x20_0000);
    }
}

/// A number of magnitude under one half rounds to zero.
proof fn lemma_small_magnitude(bits: u64)
    requires
        exponent_field(bits) <= 1021,
    ensures
        rounded_magnitude(bits) == 0,
{
    let m = significand(bits) as int;
    let k = (-scale(bits)) as nat;
    lemma2_to64_rest();
    lemma_pow2_unfold(k);
    if 53 < k - 1 {
        lemma_pow2_strictly_increases(53, (k - 1) as nat);
    }
    lemma_basic_div(m + pow2((k - 1) as nat), pow2(k) as int);
}

/// Whether the number is positive or negative zero.
pub fn is_zero_number(bits: u64) -> (zero: bool)
    ensures
        zero == is_zero(bits),
{
    bits % SIGN_BIT == 0
}

/// Rounds the number to the nearest integer, a half going away from zero,
/// and brings the result into `i32`: a value beyond either bound becomes
/// that bound, a NaN becomes zero.
pub fn round_to_i32(bits: u64) -> (rounded: i32)
    ensures
        rounded == rounded_i32(bits),
{
    let negative = bits >= SIGN_BIT;
    let exponent = (bits / HIDDEN_BIT) % 2048;
    let fraction = bits % HIDDEN_BIT;
    if exponent == 2047 {
        return if fraction != 0 {
            0
        } else if negative {
            i32::MIN
        } else {
            i32::MAX
        };
    }
    if exponent >= 1054 {
        proof {
            lemma_large_magnitude(bits);
        }
        return if negative {
            i32::MIN
        } else {
            i32::MAX
        };
    }
    if exponent <= 1021 {
        proof {
            lemma_small_magnitude(bits);
        }
        return 0;
    }
    let k = 1075 - exponent;
    let unit = power_of_two(k);
    let half = unit / 2;
    proof {
        lemma_pow2_unfold(k as nat);
        lemma_pow2_pos(k as nat);
    }
    let magnitude = (HIDDEN_BIT + fraction + half) / unit;
    assert(magnitude == rounded_magnitude(bits));
    if magnitude >= I32_LIMIT {
        if negative {
            i32::MIN
        } else {
            i32::MAX
        }
    } else if negative {
        -(magnitude as i32)
    } else {
        magnitude as i32
    }
}

} // verus!
