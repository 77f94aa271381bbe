//! Fixed-point amounts.
//!
//! Every price, factor, ratio and amount of money in this crate is an `i64`
//! count of millionths. Each operation computes the exact integer result in a
//! wider type, rounds a quotient toward zero and clamps what does not fit
//! into `i64`, so no operation can overflow or fail.

use vstd::prelude::*;

verus! {

/// Number of millionths in one unit.
pub const SCALE: i64 = 1_000_000;

/// The nearest `i64` to `x`.
pub open spec fn narrow(x: int) -> i64 {
    if x > i64::MAX {
        i64::MAX
    } else if x < i64::MIN {
        i64::MIN
    } else {
        x as i64
    }
}

/// `a / b` rounded toward zero. A zero divisor gives the largest amount with
/// the sign of `a`, and zero for `a == 0`.
pub open spec fn quotient(a: int, b: int) -> int {
    if b == 0 {
        if a > 0 {
            i64::MAX as int
        } else if a < 0 {
            i64::MIN as int
        } else {
            0
        }
    } else if a >= 0 && b > 0 {
        a / b
    } else if a >= 0 {
        -(a / (-b))
    } else if b > 0 {
        -((-a) / b)
    } else {
        (-a) / (-b)
    }
}

/// Sum of two amounts.
pub open spec fn spec_add_fixed(a: i64, b: i64) -> i64 {
    narrow(a + b)
}

/// Difference of two amounts.
pub open spec fn spec_sub_fixed(a: i64, b: i64) -> i64 {
    narrow(a - b)
}

/// Product of two amounts, as an amount.
pub open spec fn spec_mul_fixed(a: i64, b: i64) -> i64 {
    narrow(quotient(a * b, SCALE as int))
}

/// Ratio of two amounts, as an amount.
pub open spec fn spec_div_fixed(a: i64, b: i64) -> i64 {
    narrow(quotient(a * SCALE, b as int))
}

/// An amount taken `k` times.
pub open spec fn spec_scale_fixed(a: i64, k: int) -> i64 {
    narrow(a * k)
}

/// The amount that stands for the whole number `k`.
pub open spec fn spec_fixed_from_int(k: int) -> i64 {
    narrow(k * SCALE)
}

/// The whole part of an amount, rounded toward zero.
pub open spec fn spec_integer_part(a: i64) -> i64 {
    narrow(quotient(a as int, SCALE as int))
}

/// An exact sum divided by a count, as an amount.
pub open spec fn spec_average(sum: int, count: int) -> i64 {
    narrow(quotient(sum, count))
}

/// `r` is the square root of `x` rounded down.
pub open spec fn is_floor_sqrt(x: int, r: int) -> bool {
    0 <= r && r * r <= x < (r + 1) * (r + 1)
}

/// Square root of a non-negative integer, rounded down.
pub open spec fn floor_sqrt(x: int) -> int {
    choose|r: int| is_floor_sqrt(x, r)
}

/// Square root of an amount, as an amount; zero for a negative amount.
pub open spec fn spec_sqrt_fixed(a: i64) -> i64 {
    if a <= 0 {
        0
    } else {
        narrow(floor_sqrt(a * SCALE))
    }
}

/// At most one integer is the rounded-down square root of `x`.
pub proof fn lemma_floor_sqrt_unique(x: int, r1: int, r2: int)
    requires
        is_floor_sqrt(x, r1),
        is_floor_sqrt(x, r2),
    ensures
        r1 == r2,
{
    if r1 < r2 {
        assert((r1 + 1) * (r1 + 1) <= r2 * r2) by (nonlinear_arith)
            requires
                0 <= r1,
                r1 + 1 <= r2,
        ;
    } else if r2 < r1 {
        assert((r2 + 1) * (r2 + 1) <= r1 * r1) by (nonlinear_arith)
            requires
                0 <= r2,
                r2 + 1 <= r1,
        ;
    }
}

/// Clamps a wide integer into `i64`.
pub fn clamp(x: i128) -> (r: i64)
    ensures
        r == narrow(x as int),
{
    if x > i64::MAX as i128 {
        i64::MAX
    } else if x < i64::MIN as i128 {
        i64::MIN
    } else {
        x as i64
    }
}

/// Divides two wide integers, rounding toward zero.
pub fn divide(a: i128, b: i128) -> (r: i128)
    requires
        a > i128::MIN,
        b > i128::MIN,
    ensures
        r == quotient(a as int, b as int),
{
    if b == 0 {
        if a > 0 {
            i64::MAX as i128
        } else if a < 0 {
            i64::MIN as i128
        } else {
            0
        }
    } else if a >= 0 && b > 0 {
        a / b
    } else if a >= 0 {
        -(a / (-b))
    } else if b > 0 {
        -((-a) / b)
    } else {
        (-a) / (-b)
    }
}

/// Sum of two amounts.
pub fn add_fixed(a: i64, b: i64) -> (r: i64)
    ensures
        r == spec_add_fixed(a, b),
{
    clamp(a as i128 + b as i128)
}

/// Difference of two amounts.
pub fn sub_fixed(a: i64, b: i64) -> (r: i64)
    ensures
        r == spec_sub_fixed(a, b),
{
    clamp(a as i128 - b as i128)
}

/// A product of two bounded integers is bounded by the square of the bound.
proof fn lemma_product_bound(a: int, b: int, bound: int)
    by (nonlinear_arith)
    requires
        -bound <= a <= bound,
        -bound <= b <= bound,
    ensures
        -(bound * bound) <= a * b <= bound * bound,
{
}

/// Product of two amounts, as an amount.
pub fn mul_fixed(a: i64, b: i64) -> (r: i64)
    ensures
        r == spec_mul_fixed(a, b),
{
    proof {
        lemma_product_bound(a as int, b as int, 0x8000_0000_0000_0000);
    }
    clamp(divide(a as i128 * b as i128, SCALE as i128))
}

/// Ratio of two amounts, as an amount.
pub fn div_fixed(a: i64, b: i64) -> (r: i64)
    ensures
        r == spec_div_fixed(a, b),
{
    proof {
        lemma_product_bound(a as int, SCALE as int, 0x8000_0000_0000_0000);
    }
    clamp(divide(a as i128 * SCALE as i128, b as i128))
}

/// An amount taken `k` times.
pub fn scale_fixed(a: i64, k: u64) -> (r: i64)
    ensures
        r == spec_scale_fixed(a, k as int),
{
    proof {
        assert(-0x7fff_ffff_ffff_ffff_ffff_ffff_ffff_ffff <= a * k
            <= 0x7fff_ffff_ffff_ffff_ffff_ffff_ffff_ffff) by (nonlinear_arith)
            requires
                -0x8000_0000_0000_0000 <= a <= 0x8000_0000_0000_0000,
                0 <= k < 0x1_0000_0000_0000_0000,
        ;
    }
    clamp(a as i128 * k as i128)
}

/// The amount that stands for the whole number `k`.
pub fn fixed_from_int(k: i64) -> (r: i64)
    ensures
        r == spec_fixed_from_int(k as int),
{
    proof {
        lemma_product_bound(k as int, SCALE as int, 0x8000_0000_0000_0000);
    }
    clamp(k as i128 * SCALE as i128)
}

/// The whole part of an amount, rounded toward zero.
pub fn integer_part(a: i64) -> (r: i64)
    ensures
        r == spec_integer_part(a),
{
    clamp(divide(a as i128, SCALE as i128))
}

/// An exact sum divided by a count, as an amount.
pub fn average(sum: i128, count: usize) -> (r: i64)
    requires
        sum > i128::MIN,
    ensures
        r == spec_average(sum as int, count as int),
{
    clamp(divide(sum, count as i128))
}

/// Square root of `x` rounded down, by bisection.
pub fn integer_sqrt(x: u128) -> (r: u128)
    requires
        x < 0x1_0000_0000_0000_0000_0000_0000,
    ensures
        is_floor_sqrt(x as int, r as int),
        r == floor_sqrt(x as int),
{
    let mut low: u128 = 0;
    let mut high: u128 = 0x1_0000_0000_0000;
    assert(0x1_0000_0000_0000 * 0x1_0000_0000_0000 == 0x1_0000_0000_0000_0000_0000_0000int)
        by (nonlinear_arith);
    while high - low > 1
        invariant
            low < high <= 0x1_0000_0000_0000,
            low * low <= x < high * high,
        decreases high - low,
    {
        let mid: u128 = low + (high - low) / 2;
        assert(mid * mid < 0x1_0000_0000_0000 * 0x1_0000_0000_0000) by (nonlinear_arith)
            requires
                0 <= mid < 0x1_0000_0000_0000,
        ;
        if mid * mid <= x {
            low = mid;
        } else {
            high = mid;
        }
    }
    proof {
        assert(is_floor_sqrt(x as int, low as int));
        lemma_floor_sqrt_unique(x as int, low as int, floor_sqrt(x as int));
    }
    low
}

/// Square root of an amount, as an amount; zero for a negative amount.
pub fn sqrt_fixed(a: i64) -> (r: i64)
    ensures
        r == spec_sqrt_fixed(a),
{
    if a <= 0 {
        0
    } else {
        proof {
            lemma_product_bound(a as int, SCALE as int, 0x8000_0000_0000_0000);
            assert(a * SCALE >= 0) by (nonlinear_arith)
                requires
                    a > 0,
                    SCALE > 0,
            ;
            assert(a * SCALE < 0x1_0000_0000_0000_0000_0000_0000) by (nonlinear_arith)
                requires
                    0 < a < 0x8000_0000_0000_0000,
                    SCALE == 1_000_000,
            ;
        }
        let wide: u128 = a as u128 * SCALE as u128;
        let root: u128 = integer_sqrt(wide);
        proof {
            assert(root < 0x1_0000_0000_0000) by (nonlinear_arith)
                requires
                    root * root <= wide,
                    wide < 0x1_0000_0000_0000_0000_0000_0000,
                    root >= 0,
            ;
        }
        clamp(root as i128)
    }
}

} // verus!
