//! IEEE 754 binary64 numbers, held as their 64 bits.
//!
//! The machine stores a float as its bit pattern and never computes with
//! floats itself. What it needs of them is stated here over integers: the
//! integer part of a number, the order of two numbers, and the number that
//! an integer converts to. Sums, differences, products and quotients of
//! floats are left to the host.

use vstd::prelude::*;
use vstd::arithmetic::power2::*;
use vstd::arithmetic::div_mod::*;
use vstd::arithmetic::mul::*;
use vstd::bits::*;

verus! {

/// The bit that holds the sign.
pub const SIGN_BIT: u64 = 0x8000_0000_0000_0000;

/// Two to the power of 52: the weight of the bit that a normal number
/// leaves out of its fraction.
pub const HIDDEN_BIT: u64 = 0x0010_0000_0000_0000;

/// Whether the sign bit is set.
pub open spec fn negative(bits: u64) -> bool {
    bits >= SIGN_BIT
}

/// The eleven bits of the biased exponent.
pub open spec fn exponent(bits: u64) -> int {
    (bits / HIDDEN_BIT) as int % 2048
}

/// The fifty-two bits of the fraction.
pub open spec fn fraction(bits: u64) -> int {
    (bits % HIDDEN_BIT) as int
}

/// Whether the bits are one of the patterns that are no number.
pub open spec fn is_nan(bits: u64) -> bool {
    exponent(bits) == 2047 && fraction(bits) != 0
}

/// The integer part of the magnitude. A number below one has none; an
/// infinity has more than any integer type can hold.
pub open spec fn whole(bits: u64) -> int {
    let e = exponent(bits);
    let significand = HIDDEN_BIT + fraction(bits);
    if e < 1023 {
        0
    } else if e <= 1075 {
        significand / (pow2((1075 - e) as nat) as int)
    } else {
        significand * pow2((e - 1075) as nat)
    }
}

/// The number with its fractional part cut off; zero for what is no number.
pub open spec fn truncated(bits: u64) -> int {
    if is_nan(bits) {
        0
    } else if negative(bits) {
        -whole(bits)
    } else {
        whole(bits)
    }
}

/// The number as a signed integer: cut off towards zero, and held to the
/// range of the type.
pub open spec fn spec_to_i64(bits: u64) -> i64 {
    let t = truncated(bits);
    if t < i64::MIN {
        i64::MIN
    } else if t > i64::MAX {
        i64::MAX
    } else {
        t as i64
    }
}

/// The number as an unsigned integer: cut off towards zero, and held to
/// the range of the type, so that every negative number gives zero.
pub open spec fn spec_to_u64(bits: u64) -> u64 {
    let t = truncated(bits);
    if t < 0 {
        0
    } else if t > u64::MAX {
        u64::MAX
    } else {
        t as u64
    }
}

/// Where a pattern stands in the order of the numbers: patterns of one
/// sign are ordered as their magnitudes are, and both zeros stand at 0.
pub open spec fn rank(bits: u64) -> int {
    if negative(bits) {
        -((bits - SIGN_BIT) as int)
    } else {
        bits as int
    }
}

/// Whether `a` is a smaller number than `b`. What is no number is neither
/// smaller nor greater than anything.
pub open spec fn spec_less(a: u64, b: u64) -> bool {
    !is_nan(a) && !is_nan(b) && rank(a) < rank(b)
}

/// The number of binary digits of `a`.
pub open spec fn bit_length(a: nat) -> nat
    decreases a,
{
    if a == 0 {
        0
    } else {
        1 + bit_length(a / 2)
    }
}

/// `a / d` rounded to the nearest integer, a tie going to the even one.
pub open spec fn round_half_even(a: int, d: int) -> int {
    let q = a / d;
    let r = a % d;
    if 2 * r > d || (2 * r == d && q % 2 == 1) {
        q + 1
    } else {
        q
    }
}

/// The binary64 number nearest to `i`, a tie going to the one whose last
/// fraction bit is clear. Integers of up to 53 binary digits are exact.
pub open spec fn spec_from_i64(i: i64) -> u64 {
    let a: int = if i < 0 { -(i as int) } else { i as int };
    let n = bit_length(a as nat) as int;
    let significand = if n <= 53 {
        a * pow2((53 - n) as nat)
    } else {
        round_half_even(a, pow2((n - 53) as nat) as int)
    };
    let sign: int = if i < 0 { SIGN_BIT as int } else { 0 };
    if i == 0 {
        0
    } else {
        (sign + (1022 + n) * HIDDEN_BIT + (significand - HIDDEN_BIT)) as u64
    }
}

/// Tells whether the bits are no number.
pub fn nan(bits: u64) -> (answer: bool)
    ensures
        answer == is_nan(bits),
{
    bits / HIDDEN_BIT % 2048 == 2047 && bits % HIDDEN_BIT != 0
}

proof fn lemma_pow2_bounded(k: nat, limit: nat)
    requires
        k <= limit,
    ensures
        1 <= pow2(k) <= pow2(limit),
{
    lemma_pow2_pos(k);
    if k < limit {
        lemma_pow2_strictly_increases(k, limit);
    }
}

proof fn lemma_shifted_out(significand: int, k: nat)
    requires
        HIDDEN_BIT <= significand,
        11 <= k,
    ensures
        significand * pow2(k) >= 0x8000_0000_0000_0000,
{
    lemma_pow2_bounded(11, k);
    lemma2_to64();
    lemma_mul_inequality(pow2(11) as int, pow2(k) as int, significand);
    lemma_mul_is_commutative(significand, pow2(k) as int);
    lemma_mul_is_commutative(significand, pow2(11) as int);
    assert(significand * 0x800 >= 0x8000_0000_0000_0000);
}

/// Converts the number to a signed integer as a cast does: the fraction is
/// cut off, what does not fit becomes the nearest end of the range, and
/// what is no number becomes zero.
pub fn to_i64(bits: u64) -> (value: i64)
    ensures
        value == spec_to_i64(bits),
{
    let minus = bits >= SIGN_BIT;
    let e = bits / HIDDEN_BIT % 2048;
    let f = bits % HIDDEN_BIT;
    if e == 2047 && f != 0 {
        return 0;
    }
    if e < 1023 {
        return 0;
    }
    let significand = HIDDEN_BIT + f;
    if e <= 1075 {
        let shift = 1075 - e;
        let magnitude = significand >> shift;
        proof {
            lemma_u64_shr_is_div(significand, shift);
            lemma_pow2_bounded(shift as nat, 52);
            lemma_div_is_ordered_by_denominator(significand as int, 1, pow2(shift as nat) as int);
            lemma_div_pos_is_pos(significand as int, pow2(shift as nat) as int);
        }
        if minus {
            -(magnitude as i64)
        } else {
            magnitude as i64
        }
    } else if e <= 1085 {
        let shift = e - 1075;
        proof {
            lemma_pow2_bounded(shift as nat, 10);
            lemma2_to64();
            lemma_mul_upper_bound(significand as int, 0x1f_ffff_ffff_ffff, pow2(shift as nat) as int, 0x400);
            lemma_mul_strictly_positive(significand as int, pow2(shift as nat) as int);
            lemma_u64_shl_is_mul(significand, shift);
        }
        let magnitude = significand << shift;
        if minus {
            -(magnitude as i64)
        } else {
            magnitude as i64
        }
    } else {
        proof {
            lemma_shifted_out(significand as int, (e - 1075) as nat);
        }
        if minus {
            i64::MIN
        } else {
            i64::MAX
        }
    }
}

/// Converts the number to an unsigned integer as a cast does: the fraction
/// is cut off, a negative number becomes zero, what is too large becomes
/// the largest value, and what is no number becomes zero.
pub fn to_u64(bits: u64) -> (value: u64)
    ensures
        value == spec_to_u64(bits),
{
    let minus = bits >= SIGN_BIT;
    let e = bits / HIDDEN_BIT % 2048;
    let f = bits % HIDDEN_BIT;
    if e == 2047 && f != 0 {
        return 0;
    }
    if e < 1023 {
        return 0;
    }
    let significand = HIDDEN_BIT + f;
    if e <= 1075 {
        let shift = 1075 - e;
        let magnitude = significand >> shift;
        proof {
            lemma_u64_shr_is_div(significand, shift);
            lemma_pow2_bounded(shift as nat, 52);
            lemma_div_pos_is_pos(significand as int, pow2(shift as nat) as int);
        }
        if minus {
            0
        } else {
            magnitude
        }
    } else if e <= 1086 {
        let shift = e - 1075;
        proof {
            lemma_pow2_bounded(shift as nat, 11);
            lemma2_to64();
            lemma_mul_upper_bound(significand as int, 0x1f_ffff_ffff_ffff, pow2(shift as nat) as int, 0x800);
            lemma_mul_strictly_positive(significand as int, pow2(shift as nat) as int);
            lemma_u64_shl_is_mul(significand, shift);
        }
        let magnitude = significand << shift;
        if minus {
            0
        } else {
            magnitude
        }
    } else {
        proof {
            lemma_pow2_bounded(12, (e - 1075) as nat);
            lemma2_to64();
            lemma_mul_inequality(pow2(12) as int, pow2((e - 1075) as nat) as int, significand as int);
            lemma_mul_is_commutative(significand as int, pow2((e - 1075) as nat) as int);
            lemma_mul_is_commutative(significand as int, pow2(12) as int);
        }
        if minus {
            0
        } else {
            u64::MAX
        }
    }
}

proof fn lemma_bit_length_bounds(a: nat)
    requires
        a > 0,
    ensures
        bit_length(a) >= 1,
        pow2((bit_length(a) - 1) as nat) <= a < pow2(bit_length(a)),
    decreases a,
{
    lemma2_to64();
    if a == 1 {
        assert(bit_length(0) == 0);
        assert(bit_length(1) == 1 + bit_length(0));
    } else {
        let half = a / 2;
        lemma_bit_length_bounds(half);
        let n = bit_length(half);
        assert(bit_length(a) == 1 + n);
        lemma_pow2_unfold(n);
        lemma_pow2_unfold(n + 1);
    }
}

proof fn lemma_scaled_up(a: int, n: nat)
    requires
        1 <= n <= 53,
        pow2((n - 1) as nat) <= a < pow2(n),
    ensures
        HIDDEN_BIT <= a * pow2((53 - n) as nat) < 2 * HIDDEN_BIT,
{
    let k = (53 - n) as nat;
    lemma2_to64_rest();
    lemma_pow2_pos(k);
    lemma_pow2_adds((n - 1) as nat, k);
    lemma_pow2_adds(n, k);
    lemma_mul_inequality(pow2((n - 1) as nat) as int, a, pow2(k) as int);
    lemma_mul_strict_inequality(a, pow2(n) as int, pow2(k) as int);
}

proof fn lemma_scaled_down(a: int, n: nat)
    requires
        53 < n <= 64,
        pow2((n - 1) as nat) <= a < pow2(n),
    ensures
        HIDDEN_BIT <= a / (pow2((n - 53) as nat) as int) < 2 * HIDDEN_BIT,
{
    let k = (n - 53) as nat;
    let d = pow2(k) as int;
    lemma2_to64_rest();
    lemma_pow2_pos(k);
    lemma_pow2_adds(52, k);
    lemma_pow2_adds(53, k);
    lemma_div_is_ordered(pow2(52) * d, a, d);
    lemma_div_by_multiple(pow2(52) as int, d);
    lemma_fundamental_div_mod(a, d);
    let q = a / d;
    assert(q < pow2(53)) by {
        if q >= pow2(53) {
            lemma_mul_inequality(pow2(53) as int, q, d);
            lemma_mul_is_commutative(q, d);
        }
    }
}

/// Every integer of magnitude up to two to the power of 53 converts to a
/// binary64 number that converts back to it: within that range nothing
/// is rounded.
pub proof fn lemma_exact_integers(i: i64)
    requires
        -0x20_0000_0000_0000 <= i <= 0x20_0000_0000_0000,
    ensures
        !is_nan(spec_from_i64(i)),
        truncated(spec_from_i64(i)) == i,
        spec_to_i64(spec_from_i64(i)) == i,
        i >= 0 ==> spec_to_u64(spec_from_i64(i)) == i,
{
    lemma2_to64();
    lemma2_to64_rest();
    if i != 0 {
        let a: int = if i < 0 { -(i as int) } else { i as int };
        let n = bit_length(a as nat);
        lemma_bit_length_bounds(a as nat);
        if n >= 55 {
            lemma_pow2_bounded(54, (n - 1) as nat);
        }
        let sign: int = if i < 0 { SIGN_BIT as int } else { 0 };
        let bits = spec_from_i64(i);
        if n <= 53 {
            let k = (53 - n) as nat;
            let significand = a * pow2(k);
            lemma_scaled_up(a, n);
            assert(bits == sign + (1022 + n) * HIDDEN_BIT + (significand - HIDDEN_BIT));
            assert(exponent(bits) == 1022 + n);
            assert(fraction(bits) == significand - HIDDEN_BIT);
            lemma_pow2_pos(k);
            lemma_div_by_multiple(a, pow2(k) as int);
            assert(whole(bits) == a);
        } else {
            assert(n == 54);
            assert(a == 0x20_0000_0000_0000);
            assert(round_half_even(a, 2) == 0x10_0000_0000_0000);
            assert(bits == sign + 1076 * HIDDEN_BIT);
            assert(exponent(bits) == 1076);
            assert(fraction(bits) == 0);
            assert(whole(bits) == HIDDEN_BIT * pow2(1));
        }
    }
}

/// Converts an integer to the nearest binary64 number, as a cast does.
pub fn from_i64(i: i64) -> (bits: u64)
    ensures
        bits == spec_from_i64(i),
{
    if i == 0 {
        return 0;
    }
    let sign: u64 = if i < 0 { SIGN_BIT } else { 0 };
    let a: u64 = if i >= 0 {
        i as u64
    } else if i == i64::MIN {
        SIGN_BIT
    } else {
        (-i) as u64
    };
    let mut n: u64 = 0;
    let mut rest: u64 = a;
    proof {
        lemma2_to64();
    }
    while rest != 0
        invariant
            n <= 64,
            rest < pow2((64 - n) as nat),
            bit_length(a as nat) == n + bit_length(rest as nat),
        decreases rest,
    {
        proof {
            lemma2_to64();
            if n == 64 {
                assert(false);
            }
            lemma_pow2_unfold((64 - n) as nat);
        }
        rest = rest / 2;
        n = n + 1;
    }
    proof {
        lemma_bit_length_bounds(a as nat);
    }
    let significand: u64 = if n <= 53 {
        let shift = 53 - n;
        proof {
            lemma_scaled_up(a as int, n as nat);
            lemma_u64_shl_is_mul(a, shift);
        }
        a << shift
    } else {
        let shift = n - 53;
        proof {
            lemma_scaled_down(a as int, n as nat);
            lemma_pow2_bounded(shift as nat, 11);
            lemma2_to64();
            lemma_u64_shl_is_mul(1, shift);
        }
        let d = 1u64 << shift;
        let q = a / d;
        let r = a % d;
        if 2 * r > d || (2 * r == d && q % 2 == 1) {
            q + 1
        } else {
            q
        }
    };
    sign + (1022 + n) * HIDDEN_BIT + (significand - HIDDEN_BIT)
}

/// Tells whether `a` is a smaller number than `b`.
pub fn less(a: u64, b: u64) -> (answer: bool)
    ensures
        answer == spec_less(a, b),
{
    if nan(a) || nan(b) {
        false
    } else if a >= SIGN_BIT {
        if b >= SIGN_BIT {
            a > b
        } else {
            a > SIGN_BIT || b > 0
        }
    } else {
        b < SIGN_BIT && a < b
    }
}

} // verus!
