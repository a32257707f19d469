//! IEEE-754 doubles as bit patterns.
//!
//! A double is stored as the `u64` that `to_bits` gives: one sign bit, eleven
//! exponent bits, fifty-two fraction bits. This module says, over those
//! integers, which patterns are numbers and how numbers are ordered.

use vstd::arithmetic::power2::{
    lemma2_to64, lemma2_to64_rest, lemma_pow2_adds, lemma_pow2_pos, lemma_pow2_unfold, pow2,
};
use vstd::prelude::*;

verus! {

/// The sign bit.
pub const SIGN: u64 = 0x8000_0000_0000_0000;

/// The pattern of positive infinity: all exponent bits set, no fraction bit.
pub const INFINITY: u64 = 0x7FF0_0000_0000_0000;

/// The pattern of 0.0.
pub const ZERO: u64 = 0;

/// The pattern of 1.0.
pub const ONE: u64 = 0x3FF0_0000_0000_0000;

/// The pattern of the double nearest to the circle constant pi.
pub const PI: u64 = 0x4009_21FB_5444_2D18;

/// The pattern of the double nearest to two pi.
pub const TAU: u64 = 0x4019_21FB_5444_2D18;

/// The pattern of the double nearest to Euler's number.
pub const E: u64 = 0x4005_BF0A_8B14_5769;

/// The pattern of the double nearest to the golden ratio.
pub const PHI: u64 = 0x3FF9_E377_9B97_F4A8;

/// Two to the number of fraction bits.
pub const PRECISION: u64 = 0x0010_0000_0000_0000;

/// The exponent field of a pattern.
pub open spec fn exponent(bits: u64) -> int {
    magnitude(bits) / (PRECISION as int)
}

/// The fraction field of a pattern.
pub open spec fn fraction(bits: u64) -> int {
    magnitude(bits) % (PRECISION as int)
}

/// The pattern with the sign bit cleared: the absolute value.
pub open spec fn magnitude(bits: u64) -> int {
    if bits >= SIGN {
        bits - SIGN
    } else {
        bits as int
    }
}

/// Whether the pattern is not a number: its magnitude lies above infinity's.
pub open spec fn is_nan(bits: u64) -> bool {
    magnitude(bits) > INFINITY
}

/// Where a number stands among all numbers: doubles of one sign are ordered
/// as their magnitudes are, negative ones in reverse, and the two zeros
/// share a place.
pub open spec fn rank(bits: u64) -> int {
    if bits >= SIGN {
        -magnitude(bits)
    } else {
        magnitude(bits)
    }
}

/// The comparison `a <= b` of two doubles: false when either is not a
/// number.
pub open spec fn le(a: u64, b: u64) -> bool {
    !is_nan(a) && !is_nan(b) && rank(a) <= rank(b)
}

/// Whether `a <= b` as doubles.
pub fn less_or_equal(a: u64, b: u64) -> (holds: bool)
    ensures
        holds == le(a, b),
{
    let a_magnitude: u64 = if a >= SIGN { a - SIGN } else { a };
    let b_magnitude: u64 = if b >= SIGN { b - SIGN } else { b };
    if a_magnitude > INFINITY || b_magnitude > INFINITY {
        false
    } else if a >= SIGN {
        if b >= SIGN {
            b_magnitude <= a_magnitude
        } else {
            true
        }
    } else {
        if b >= SIGN {
            a_magnitude == 0 && b_magnitude == 0
        } else {
            a_magnitude <= b_magnitude
        }
    }
}

/// Among numbers, `<=` is a total preorder, and two numbers are each `<=`
/// the other only if they are the same pattern or both are zeros.
pub proof fn le_is_total_preorder(a: u64, b: u64, c: u64)
    requires
        !is_nan(a),
        !is_nan(b),
        !is_nan(c),
    ensures
        le(a, a),
        le(a, b) || le(b, a),
        le(a, b) && le(b, c) ==> le(a, c),
        le(a, b) && le(b, a) ==> a == b || (magnitude(a) == 0 && magnitude(b) == 0),
{
}

/// Whether `bits` is the double whose value is the top 52 bits of `draw`
/// divided by 2^52. Zero is the pattern 0. Any other such value is a normal
/// number below one: with exponent field `e` and fraction field `f` it is
/// (2^52 + f) * 2^(e - 1075), which is k / 2^52 where 2^52 + f is
/// k * 2^(1023 - e).
pub open spec fn is_unit_fraction(bits: u64, draw: u64) -> bool {
    let k = draw as int / 4096;
    if k == 0 {
        bits == 0
    } else {
        &&& bits < ONE
        &&& 971 <= exponent(bits) <= 1022
        &&& PRECISION + fraction(bits) == k * pow2((1023 - exponent(bits)) as nat)
    }
}

/// The double, at least 0 and below 1, whose value is the top 52 bits of
/// `draw` divided by 2^52.
pub fn unit_fraction(draw: u64) -> (bits: u64)
    ensures
        bits < ONE,
        is_unit_fraction(bits, draw),
{
    let k: u64 = draw / 4096;
    if k == 0 {
        return 0;
    }
    let mut scaled: u64 = k;
    let mut field: u64 = 1023;
    let ghost mut shift: nat = 0;
    proof {
        lemma2_to64();
        assert(k * 1 == k);
    }
    while scaled < PRECISION
        invariant
            0 < k,
            0 < scaled < 2 * PRECISION,
            shift <= 52,
            field + shift == 1023,
            scaled >= PRECISION ==> shift >= 1,
            scaled == k * pow2(shift),
        decreases 2 * PRECISION - scaled,
    {
        proof {
            lemma2_to64_rest();
            assert(shift < 52) by {
                if shift == 52 {
                    assert(k * pow2(52) >= pow2(52)) by (nonlinear_arith)
                        requires
                            k >= 1,
                    ;
                }
            }
            lemma_pow2_unfold(shift + 1);
            assert(k * (2 * pow2(shift)) == 2 * (k * pow2(shift))) by (nonlinear_arith);
            shift = shift + 1;
        }
        scaled = scaled * 2;
        field = field - 1;
    }
    let bits: u64 = field * PRECISION + (scaled - PRECISION);
    assert(exponent(bits) == field);
    assert(fraction(bits) == scaled - PRECISION);
    bits
}

/// Whether `bits` is the double whose value is `count`. Zero is the pattern
/// 0. Any other count below 2^53 is a normal number: with exponent field
/// `e` and fraction field `f` its value is (2^52 + f) * 2^(e - 1075), which
/// is `count` where 2^52 + f is `count` * 2^(1075 - e).
pub open spec fn is_count_double(bits: u64, count: nat) -> bool {
    if count == 0 {
        bits == 0
    } else {
        &&& bits < INFINITY
        &&& 1023 <= exponent(bits) <= 1075
        &&& PRECISION + fraction(bits) == count * pow2((1075 - exponent(bits)) as nat)
    }
}

/// The double whose value is `count`: every count of 32 bits has exactly
/// one.
pub open spec fn count_double(count: u32) -> u64 {
    choose|bits: u64| is_count_double(bits, count as nat)
}

/// Every count of 32 bits is the value of a double, so `count_double` is
/// that double; for zero it is the pattern 0.
pub proof fn count_has_a_double(count: u32)
    ensures
        is_count_double(count_double(count), count as nat),
        count == 0 ==> count_double(count) == 0,
{
    if count == 0 {
        assert(is_count_double(0, 0));
    } else {
        lemma2_to64();
        assert(count * 1 == count);
        let bits = normalized(count as nat, count as nat, 0);
        assert(is_count_double(bits, count as nat));
    }
}

/// A double whose value is `count`, from `count` times a power of two that
/// lies below 2^53: doubled until it is at least 2^52.
proof fn normalized(count: nat, scaled: nat, shift: nat) -> (bits: u64)
    requires
        0 < count,
        0 < scaled < 2 * PRECISION,
        shift <= 52,
        scaled == count * pow2(shift),
    ensures
        is_count_double(bits, count),
    decreases 2 * PRECISION - scaled,
{
    lemma2_to64_rest();
    if scaled >= PRECISION {
        let bits = ((1075 - shift) * PRECISION + (scaled - PRECISION)) as u64;
        assert(exponent(bits) == 1075 - shift);
        assert(fraction(bits) == scaled - PRECISION);
        bits
    } else {
        assert(shift < 52) by {
            if shift == 52 {
                assert(count * pow2(52) >= pow2(52)) by (nonlinear_arith)
                    requires
                        count >= 1,
                ;
            }
        }
        lemma_pow2_unfold(shift + 1);
        assert(count * (2 * pow2(shift)) == 2 * (count * pow2(shift))) by (nonlinear_arith);
        normalized(count, 2 * scaled, shift + 1)
    }
}

/// No count is the value of two doubles.
pub proof fn count_double_is_unique(first: u64, second: u64, count: nat)
    requires
        is_count_double(first, count),
        is_count_double(second, count),
    ensures
        first == second,
{
    if count > 0 {
        let (e1, e2) = (exponent(first), exponent(second));
        if e1 < e2 {
            smaller_exponent_doubles_significand(second, first, count);
        } else if e2 < e1 {
            smaller_exponent_doubles_significand(first, second, count);
        }
        assert(e1 == e2);
        assert(fraction(first) == fraction(second));
    }
}

/// Of two doubles with the value `count`, one with a smaller exponent field
/// has at least twice the significand of the other.
proof fn smaller_exponent_doubles_significand(upper: u64, lower: u64, count: nat)
    requires
        count > 0,
        is_count_double(upper, count),
        is_count_double(lower, count),
        exponent(lower) < exponent(upper),
    ensures
        PRECISION + fraction(lower) >= 2 * (PRECISION + fraction(upper)),
{
    let above = (1075 - exponent(upper)) as nat;
    let step = (exponent(upper) - exponent(lower)) as nat;
    lemma_pow2_adds(above, step);
    lemma_pow2_pos(above);
    lemma_pow2_unfold(step);
    lemma_pow2_pos((step - 1) as nat);
    let small = count * pow2(above);
    assert(count * (pow2(above) * pow2(step)) == small * pow2(step)) by (nonlinear_arith)
        requires
            small == count * pow2(above),
    ;
    assert(small * pow2(step) >= small * 2) by (nonlinear_arith)
        requires
            pow2(step) >= 2,
            small >= 0,
    ;
}

/// The double whose value is `count`.
pub fn double_of_count(count: u32) -> (bits: u64)
    ensures
        is_count_double(bits, count as nat),
        bits == count_double(count),
{
    if count == 0 {
        proof {
            count_has_a_double(count);
        }
        return 0;
    }
    let mut scaled: u64 = count as u64;
    let mut field: u64 = 1075;
    let ghost mut shift: nat = 0;
    proof {
        lemma2_to64();
        assert(count * 1 == count);
    }
    while scaled < PRECISION
        invariant
            0 < count,
            0 < scaled < 2 * PRECISION,
            shift <= 52,
            field + shift == 1075,
            scaled == count * pow2(shift),
        decreases 2 * PRECISION - scaled,
    {
        proof {
            lemma2_to64_rest();
            assert(shift < 52) by {
                if shift == 52 {
                    assert(count * pow2(52) >= pow2(52)) by (nonlinear_arith)
                        requires
                            count >= 1,
                    ;
                }
            }
            lemma_pow2_unfold(shift + 1);
            assert(count * (2 * pow2(shift)) == 2 * (count * pow2(shift))) by (nonlinear_arith);
            shift = shift + 1;
        }
        scaled = scaled * 2;
        field = field - 1;
    }
    let bits: u64 = field * PRECISION + (scaled - PRECISION);
    proof {
        assert(exponent(bits) == field);
        assert(fraction(bits) == scaled - PRECISION);
        assert(is_count_double(bits, count as nat));
        count_double_is_unique(bits, count_double(count), count as nat);
    }
    bits
}

} // verus!
