//! Numbers as the bit patterns of IEEE-754 binary64 values.

use vstd::arithmetic::power2::{
    lemma2_to64, lemma2_to64_rest, lemma_pow2_adds, lemma_pow2_unfold, pow2,
};
use vstd::prelude::*;

verus! {

/// Bit pattern of `+0.0`.
pub const POSITIVE_ZERO: u64 = 0;

/// Bit pattern of `-0.0`.
pub const NEGATIVE_ZERO: u64 = 0x8000_0000_0000_0000;

/// Bit pattern of `1.0`.
pub const ONE: u64 = 0x3ff0_0000_0000_0000;

/// The sign bit of a binary64 value.
pub const SIGN_BIT: u64 = 0x8000_0000_0000_0000;

/// Every bit of a binary64 value but its sign.
pub const MAGNITUDE_BITS: u64 = 0x7fff_ffff_ffff_ffff;

/// Bit pattern of `+inf`: the largest magnitude that is not a NaN.
pub const INFINITY: u64 = 0x7ff0_0000_0000_0000;

/// The value is `+0.0` or `-0.0`, the only two values that compare equal to zero.
pub open spec fn zero_bits(b: u64) -> bool {
    b == POSITIVE_ZERO || b == NEGATIVE_ZERO
}

/// The value is a NaN: all exponent bits set and a nonzero fraction.
pub open spec fn nan_bits(b: u64) -> bool {
    b & MAGNITUDE_BITS > INFINITY
}

/// The two values compare equal as floating-point numbers: the two zeros are
/// equal to each other, a NaN is equal to nothing, and otherwise equal
/// values have equal bit patterns.
pub open spec fn equal_values(x: u64, y: u64) -> bool {
    !nan_bits(x) && !nan_bits(y) && (x == y || (zero_bits(x) && zero_bits(y)))
}

/// The negation of a value: the same magnitude with the other sign.
pub open spec fn negated_bits(b: u64) -> u64 {
    b ^ SIGN_BIT
}

/// Whether the value compares equal to `0.0`.
pub fn is_zero(b: u64) -> (r: bool)
    ensures
        r == zero_bits(b),
{
    assert((b & 0x7fff_ffff_ffff_ffffu64 == 0) == (b == 0 || b == 0x8000_0000_0000_0000u64))
        by (bit_vector);
    b & MAGNITUDE_BITS == 0
}

/// Whether the value compares equal to `1.0`; `1.0` has one bit pattern only.
pub fn is_one(b: u64) -> (r: bool)
    ensures
        r == (b == ONE),
{
    b == ONE
}

/// Whether the value is a NaN.
pub fn is_nan(b: u64) -> (r: bool)
    ensures
        r == nan_bits(b),
{
    b & MAGNITUDE_BITS > INFINITY
}

/// Floating-point equality of two values.
pub fn same_value(x: u64, y: u64) -> (r: bool)
    ensures
        r == equal_values(x, y),
{
    !is_nan(x) && !is_nan(y) && (x == y || (is_zero(x) && is_zero(y)))
}

/// The negation of a value, as unary minus gives it.
pub fn negated(b: u64) -> (r: u64)
    ensures
        r == negated_bits(b),
{
    b ^ SIGN_BIT
}

/// The exponent `e` with `2^e <= a < 2^(e + 1)`, for `a >= 1`.
pub open spec fn log2_floor(a: nat) -> nat
    decreases a,
{
    if a < 2 {
        0
    } else {
        1 + log2_floor(a / 2)
    }
}

/// The bit pattern of the binary64 value equal to the integer `n`, where
/// `|n| < 2^53` so that the value is exact: zero is `+0.0`; otherwise the
/// sign of `n`, the biased exponent `1023 + e` with `2^e <= |n| < 2^(e + 1)`,
/// and the 52-bit fraction `(|n| - 2^e) * 2^(52 - e)`.
pub open spec fn integer_bits(n: int) -> int {
    if n == 0 {
        0
    } else {
        let a = (if n < 0 { -n } else { n }) as nat;
        let e = log2_floor(a);
        (if n < 0 { SIGN_BIT as int } else { 0 }) + (1023 + e) * pow2(52) + (a - pow2(e)) * pow2(
            (52 - e) as nat,
        )
    }
}

proof fn lemma_log2_floor(a: nat, e: nat)
    requires
        pow2(e) <= a < pow2(e + 1),
    ensures
        log2_floor(a) == e,
    decreases e,
{
    lemma_pow2_unfold(e + 1);
    if e == 0 {
        lemma2_to64();
    } else {
        lemma_pow2_unfold(e);
        lemma_log2_floor(a / 2, (e - 1) as nat);
    }
}

/// The binary64 value equal to `n`, as converting an `i32` to `f64` gives it.
pub fn from_integer(n: i32) -> (r: u64)
    ensures
        r as int == integer_bits(n as int),
{
    if n == 0 {
        return 0;
    }
    let a: u64 = if n < 0 {
        (-(n as i64)) as u64
    } else {
        n as u64
    };
    proof {
        lemma2_to64();
        lemma2_to64_rest();
    }
    let mut m: u64 = a;
    let mut e: u64 = 52;
    assert(pow2((52 - e) as nat) == 1);
    while m < 0x10_0000_0000_0000
        invariant
            0 < a <= 0x8000_0000,
            0 < m < 0x20_0000_0000_0000,
            e <= 52,
            m == a * pow2((52 - e) as nat),
            pow2(52) == 0x10_0000_0000_0000,
        decreases e,
    {
        if e == 0 {
            assert(a * pow2(52) >= pow2(52)) by (nonlinear_arith)
                requires
                    a >= 1,
            ;
        }
        proof {
            lemma_pow2_unfold((53 - e) as nat);
            assert(m * 2 == a * pow2((53 - e) as nat)) by (nonlinear_arith)
                requires
                    m == a * pow2((52 - e) as nat),
                    pow2((53 - e) as nat) == 2 * pow2((52 - e) as nat),
            ;
        }
        m = m * 2;
        e = e - 1;
    }
    proof {
        let p = pow2((52 - e) as nat);
        lemma_pow2_adds(e as nat, (52 - e) as nat);
        lemma_pow2_adds((e + 1) as nat, (52 - e) as nat);
        lemma_pow2_unfold(53);
        assert(pow2(e as nat) <= a < pow2((e + 1) as nat)) by (nonlinear_arith)
            requires
                m == a * p,
                p > 0,
                pow2(e as nat) * p == 0x10_0000_0000_0000,
                pow2((e + 1) as nat) * p == 0x20_0000_0000_0000,
                0x10_0000_0000_0000 <= m < 0x20_0000_0000_0000,
        ;
        lemma_log2_floor(a as nat, e as nat);
        assert((a - pow2(e as nat)) * p == m - 0x10_0000_0000_0000) by (nonlinear_arith)
            requires
                m == a * p,
                pow2(e as nat) * p == 0x10_0000_0000_0000,
        ;
    }
    let sign: u64 = if n < 0 {
        SIGN_BIT
    } else {
        0
    };
    sign + (1023 + e) * 0x10_0000_0000_0000 + (m - 0x10_0000_0000_0000)
}

} // verus!
