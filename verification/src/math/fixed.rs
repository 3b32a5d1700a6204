use vstd::prelude::*;
use vstd::string::*;
use vstd::arithmetic::div_mod::*;

verus! {

/// Every length, coordinate and data value of this crate is a fixed-point
/// number: an `i64` that counts millionths. `UNIT` is the number one.
pub const UNIT: i64 = 1_000_000;

/// The nearest value to `v` that an `i64` can hold.
pub open spec fn clamp(v: int) -> int {
    if v < i64::MIN {
        i64::MIN as int
    } else if v > i64::MAX {
        i64::MAX as int
    } else {
        v
    }
}

/// Narrows a wide intermediate result to an `i64`, pinning what does not fit
/// to the nearer end of the range.
pub fn saturate(v: i128) -> (r: i64)
    ensures
        r == clamp(v as int),
{
    if v < -9223372036854775808i128 {
        i64::MIN
    } else if v > 9223372036854775807i128 {
        i64::MAX
    } else {
        v as i64
    }
}

/// For a negative numerator the floor of the quotient is the negated ceiling
/// of the quotient of its magnitude.
proof fn lemma_floor_of_negative(m: int, d: int)
    requires
        m > 0,
        d > 0,
    ensures
        (-m) / d == -((m - 1) / d + 1),
{
    let q = (m - 1) / d;
    let r = (m - 1) % d;
    lemma_fundamental_div_mod(m - 1, d);
    assert(-m == d * (-(q + 1)) + (d - 1 - r)) by (nonlinear_arith)
        requires
            m - 1 == d * q + r,
    ;
    lemma_fundamental_div_mod_converse(-m, d, -(q + 1), d - 1 - r);
}

/// The quotient of `n` by a positive `d`, rounded towards minus infinity.
pub fn floor_div(n: i128, d: i128) -> (q: i128)
    requires
        d > 0,
        n > i128::MIN,
    ensures
        q == n / d,
{
    if n >= 0 {
        let a: u128 = n as u128;
        let b: u128 = d as u128;
        (a / b) as i128
    } else {
        let m: u128 = (-n) as u128;
        let b: u128 = d as u128;
        let q: u128 = (m - 1) / b + 1;
        proof {
            lemma_floor_of_negative(m as int, d as int);
            lemma_div_is_ordered_by_denominator(m as int - 1, 1, d as int);
        }
        -(q as i128)
    }
}

/// Dividing by a positive number brings a number no further from zero.
pub proof fn lemma_quotient_is_nearer_zero(n: int, d: int)
    requires
        d > 0,
    ensures
        n >= 0 ==> 0 <= n / d <= n,
        n < 0 ==> n <= n / d < 0,
{
    if n >= 0 {
        lemma_div_is_ordered_by_denominator(n, 1, d);
        lemma_div_pos_is_pos(n, d);
    } else {
        lemma_floor_of_negative(-n, d);
        lemma_div_is_ordered_by_denominator(-n - 1, 1, d);
        lemma_div_pos_is_pos(-n - 1, d);
    }
}

/// `v` times the ratio `num / den`, rounded towards minus infinity.
pub open spec fn ratio(v: int, num: int, den: int) -> int {
    (v * num) / den
}

/// A ratio with a non-negative numerator and a positive denominator keeps
/// the order of the values it is applied to.
pub proof fn lemma_ratio_is_monotone(a: int, b: int, num: int, den: int)
    requires
        a <= b,
        0 <= num,
        0 < den,
    ensures
        ratio(a, num, den) <= ratio(b, num, den),
{
    assert(a * num <= b * num) by (nonlinear_arith)
        requires
            a <= b,
            0 <= num,
    ;
    lemma_div_is_ordered(a * num, b * num, den);
}

/// The whole of something is its ratio of `den` to `den`, and nothing of it
/// is its ratio at zero.
pub proof fn lemma_ratio_ends(num: int, den: int)
    requires
        0 < den,
    ensures
        ratio(0, num, den) == 0,
        ratio(den, num, den) == num,
{
    assert(0 * num == 0) by (nonlinear_arith);
    assert(den * num == num * den) by (nonlinear_arith);
    lemma_div_multiples_vanish(num, den);
}

/// The product of two 64-bit numbers has room to spare in 128 bits.
pub proof fn lemma_product_fits(a: int, b: int)
    requires
        -0x8000_0000_0000_0000 <= a <= 0x8000_0000_0000_0000,
        -0x8000_0000_0000_0000 <= b <= 0x8000_0000_0000_0000,
    ensures
        -0x4000_0000_0000_0000_0000_0000_0000_0000 <= a * b
            <= 0x4000_0000_0000_0000_0000_0000_0000_0000,
{
    assert(-0x4000_0000_0000_0000_0000_0000_0000_0000 <= a * b
        <= 0x4000_0000_0000_0000_0000_0000_0000_0000) by (nonlinear_arith)
        requires
            -0x8000_0000_0000_0000 <= a <= 0x8000_0000_0000_0000,
            -0x8000_0000_0000_0000 <= b <= 0x8000_0000_0000_0000,
    ;
}

/// Computes `ratio(v, num, den)` without loss: the product is formed in 128 bits.
pub fn scale(v: i64, num: i64, den: i64) -> (r: i128)
    requires
        0 < den,
    ensures
        r == ratio(v as int, num as int, den as int),
        -0x4000_0000_0000_0000_0000_0000_0000_0000 <= r <= 0x4000_0000_0000_0000_0000_0000_0000_0000,
{
    proof {
        lemma_product_fits(v as int, num as int);
        lemma_quotient_is_nearer_zero(v as int * num as int, den as int);
    }
    let wide: i128 = (v as i128) * (num as i128);
    floor_div(wide, den as i128)
}

} // verus!
