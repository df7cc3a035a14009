//! Facts about binary64 values that can be read off their bit patterns.
//!
//! A pattern is a sign bit, eleven exponent bits and fifty-two fraction bits.
//! Everything below the sign bit is the magnitude; magnitudes of values that
//! are not NaN are ordered as the absolute values they stand for.

use vstd::prelude::*;

verus! {

/// The sign bit of a binary64 pattern.
pub const SIGN_BIT: u64 = 0x8000_0000_0000_0000;

/// The magnitude of an infinity: all exponent bits set, no fraction bit.
pub const INFINITY_MAGNITUDE: u64 = 0x7ff0_0000_0000_0000;

/// The eleven exponent bits.
pub const EXPONENT_MASK: u64 = 0x7ff0_0000_0000_0000;

/// The fifty-two fraction bits.
pub const FRACTION_MASK: u64 = 0x000f_ffff_ffff_ffff;

/// The pattern of `0.0`.
pub const ZERO: u64 = 0;

/// The pattern of `1.0`.
pub const ONE: u64 = 0x3ff0_0000_0000_0000;

/// The pattern of `100.0`.
pub const HUNDRED: u64 = 0x4059_0000_0000_0000;

/// Whether the sign bit is set.
pub open spec fn negative(bits: u64) -> bool {
    bits >= SIGN_BIT
}

/// The pattern without its sign bit.
pub open spec fn magnitude(bits: u64) -> int {
    if bits >= SIGN_BIT {
        bits - SIGN_BIT
    } else {
        bits as int
    }
}

/// Whether the pattern is a NaN: a magnitude beyond that of infinity.
pub open spec fn nan(bits: u64) -> bool {
    magnitude(bits) > INFINITY_MAGNITUDE
}

/// Whether the pattern is one of the two zeros.
pub open spec fn zero(bits: u64) -> bool {
    magnitude(bits) == 0
}

/// The place of a pattern on the number line of patterns: the magnitude,
/// counted downwards for negative values. Both zeros have rank 0.
pub open spec fn rank(bits: u64) -> int {
    if negative(bits) {
        -magnitude(bits)
    } else {
        magnitude(bits)
    }
}

/// The comparison `a <= b` of two binary64 values: false as soon as one of
/// them is a NaN, and the order of ranks otherwise.
pub open spec fn at_most(a: u64, b: u64) -> bool {
    !nan(a) && !nan(b) && rank(a) <= rank(b)
}

/// The pattern with its sign bit flipped.
pub open spec fn negation(bits: u64) -> u64 {
    if bits >= SIGN_BIT {
        (bits - SIGN_BIT) as u64
    } else {
        (bits + SIGN_BIT) as u64
    }
}

/// A pattern is a NaN exactly when all its exponent bits are set and some
/// fraction bit is.
pub proof fn lemma_nan_by_fields(bits: u64)
    ensures
        nan(bits) <==> (bits & EXPONENT_MASK == EXPONENT_MASK && bits & FRACTION_MASK != 0),
        magnitude(bits) == bits & !SIGN_BIT,
{
    assert(bits >= 0x8000_0000_0000_0000u64 ==> (bits - 0x8000_0000_0000_0000u64) as u64 == bits
        & !0x8000_0000_0000_0000u64) by (bit_vector);
    assert(bits < 0x8000_0000_0000_0000u64 ==> bits == bits & !0x8000_0000_0000_0000u64)
        by (bit_vector);
    let m: u64 = bits & !0x8000_0000_0000_0000u64;
    assert(m > 0x7ff0_0000_0000_0000u64 <==> (bits & 0x7ff0_0000_0000_0000u64
        == 0x7ff0_0000_0000_0000u64 && bits & 0x000f_ffff_ffff_ffffu64 != 0)) by (bit_vector)
        requires
            m == bits & !0x8000_0000_0000_0000u64,
    ;
}

/// Negating keeps the magnitude and mirrors the rank.
pub proof fn lemma_negation(bits: u64)
    ensures
        magnitude(negation(bits)) == magnitude(bits),
        negative(negation(bits)) == !negative(bits),
        rank(negation(bits)) == -rank(bits),
        nan(negation(bits)) == nan(bits),
        negation(negation(bits)) == bits,
{
}

/// Among values that are not NaN, `at_most` is an order: every value is at
/// most itself, of any two one is at most the other, and what is at most a
/// value that is at most a third is at most the third.
pub proof fn lemma_at_most_orders(a: u64, b: u64, c: u64)
    ensures
        !nan(a) ==> at_most(a, a),
        !nan(a) && !nan(b) ==> at_most(a, b) || at_most(b, a),
        at_most(a, b) && at_most(b, c) ==> at_most(a, c),
        at_most(a, b) <==> at_most(negation(b), negation(a)),
{
}

/// The magnitude of a pattern.
fn magnitude_of(bits: u64) -> (m: u64)
    ensures
        m == magnitude(bits),
{
    if bits >= SIGN_BIT {
        bits - SIGN_BIT
    } else {
        bits
    }
}

/// Tells whether a pattern is a NaN.
pub fn is_nan(bits: u64) -> (r: bool)
    ensures
        r == nan(bits),
{
    magnitude_of(bits) > INFINITY_MAGNITUDE
}

/// Tells whether a pattern is `0.0` or `-0.0`.
pub fn is_zero(bits: u64) -> (r: bool)
    ensures
        r == zero(bits),
{
    magnitude_of(bits) == 0
}

/// Flips the sign of a value.
pub fn negate(bits: u64) -> (r: u64)
    ensures
        r == negation(bits),
{
    if bits >= SIGN_BIT {
        bits - SIGN_BIT
    } else {
        bits + SIGN_BIT
    }
}

/// Tells whether two patterns have the same rank: they are the same
/// pattern, or the two zeros.
pub fn same_rank(a: u64, b: u64) -> (r: bool)
    ensures
        r == (rank(a) == rank(b)),
{
    a == b || (magnitude_of(a) == 0 && magnitude_of(b) == 0)
}

/// Compares two values as binary64 `<=` does.
pub fn less_or_equal(a: u64, b: u64) -> (r: bool)
    ensures
        r == at_most(a, b),
{
    if is_nan(a) || is_nan(b) {
        return false;
    }
    let ma: u64 = magnitude_of(a);
    let mb: u64 = magnitude_of(b);
    if a >= SIGN_BIT {
        if b >= SIGN_BIT {
            mb <= ma
        } else {
            true
        }
    } else {
        if b >= SIGN_BIT {
            ma == 0 && mb == 0
        } else {
            ma <= mb
        }
    }
}

} // verus!
