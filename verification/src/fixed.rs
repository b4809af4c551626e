//! Fixed-point scalar helpers.
//!
//! A quantity of one unit (one degree of hue, one unit of distance, one
//! second, full saturation) is stored as `SCALE` in an `i64`. Arithmetic on
//! these numbers is exact integer arithmetic, so every operation has a
//! precise contract.

use vstd::prelude::*;

verus! {

/// Stored value of one unit: all fixed-point numbers carry three
/// decimal places.
pub const SCALE: i64 = 1000;

/// Clamp `v` into the closed interval `[low, high]`.
pub fn clamp_i64(v: i64, low: i64, high: i64) -> (r: i64)
    requires
        low <= high,
    ensures
        r == clamp_spec(v as int, low as int, high as int),
{
    if v < low {
        low
    } else if v > high {
        high
    } else {
        v
    }
}

/// Mathematical clamp of `v` into `[low, high]`.
pub open spec fn clamp_spec(v: int, low: int, high: int) -> int {
    if v < low {
        low
    } else if v > high {
        high
    } else {
        v
    }
}

/// Absolute value; the caller rules out `i64::MIN`, whose negation does
/// not fit.
pub fn abs_i64(v: i64) -> (r: i64)
    requires
        v != i64::MIN,
    ensures
        r == abs_spec(v as int),
{
    if v < 0 {
        -v
    } else {
        v
    }
}

/// Mathematical absolute value.
pub open spec fn abs_spec(v: int) -> int {
    if v < 0 {
        -v
    } else {
        v
    }
}

/// Truncating division (quotient rounded toward zero), stated over the
/// Euclidean division of the absolute values so that the contract does not
/// depend on any machine convention for negative operands.
pub open spec fn div_trunc_spec(a: int, b: int) -> int
    recommends
        b > 0,
{
    if a >= 0 {
        a / b
    } else {
        -((-a) / b)
    }
}

/// Divide `a` by `b`, rounding toward zero.
pub fn div_trunc(a: i64, b: i64) -> (r: i64)
    requires
        b > 0,
        a != i64::MIN,
    ensures
        r == div_trunc_spec(a as int, b as int),
        abs_spec(r as int) <= abs_spec(a as int),
{
    if a >= 0 {
        proof {
            lemma_div_bound(a as int, b as int);
        }
        a / b
    } else {
        let n = -a;
        proof {
            lemma_div_bound(n as int, b as int);
        }
        -(n / b)
    }
}

proof fn lemma_div_bound(a: int, b: int)
    requires
        a >= 0,
        b > 0,
    ensures
        0 <= a / b <= a,
{
    vstd::arithmetic::div_mod::lemma_div_nonincreasing(a, b);
    vstd::arithmetic::div_mod::lemma_div_pos_is_pos(a, b);
}

/// The product of two non-negative bounded factors is bounded by the
/// product of the bounds.
pub proof fn lemma_mul_le(a: int, b: int, la: int, lb: int)
    by (nonlinear_arith)
    requires
        0 <= a <= la,
        0 <= b <= lb,
    ensures
        0 <= a * b <= la * lb,
{
}

/// The product of two bounded factors is bounded in magnitude by the
/// product of the bounds.
pub proof fn lemma_abs_mul_le(a: int, b: int, la: int, lb: int)
    by (nonlinear_arith)
    requires
        0 <= la,
        0 <= lb,
        abs_spec(a) <= la,
        abs_spec(b) <= lb,
    ensures
        abs_spec(a * b) <= la * lb,
{
}

/// A quotient is bounded once the dividend is bounded by a multiple of the
/// divisor.
pub proof fn lemma_div_trunc_abs_le(a: int, b: int, l: int)
    requires
        b > 0,
        0 <= l,
        abs_spec(a) <= l * b,
    ensures
        abs_spec(div_trunc_spec(a, b)) <= l,
{
    vstd::arithmetic::div_mod::lemma_div_multiples_vanish(l, b);
    assert(l * b == b * l);
    if a >= 0 {
        vstd::arithmetic::div_mod::lemma_div_is_ordered(a, l * b, b);
        vstd::arithmetic::div_mod::lemma_div_pos_is_pos(a, b);
    } else {
        vstd::arithmetic::div_mod::lemma_div_is_ordered(-a, l * b, b);
        vstd::arithmetic::div_mod::lemma_div_pos_is_pos(-a, b);
    }
}

/// The integer square root: the largest `r` with `r * r <= n`.
pub open spec fn isqrt_spec(n: nat) -> nat
    decreases n,
{
    if n == 0 {
        0
    } else {
        let r = isqrt_spec((n - 1) as nat);
        if (r + 1) * (r + 1) <= n {
            r + 1
        } else {
            r
        }
    }
}

pub proof fn lemma_isqrt_bracket(n: nat)
    ensures
        isqrt_spec(n) * isqrt_spec(n) <= n,
        n < (isqrt_spec(n) + 1) * (isqrt_spec(n) + 1),
    decreases n,
{
    if n > 0 {
        lemma_isqrt_bracket((n - 1) as nat);
        let r = isqrt_spec((n - 1) as nat);
        assert(isqrt_spec(n) == if (r + 1) * (r + 1) <= n {
            r + 1
        } else {
            r
        });
        if (r + 1) * (r + 1) <= n {
            assert((r + 2) * (r + 2) > n) by (nonlinear_arith)
                requires
                    n - 1 < (r + 1) * (r + 1),
            ;
            assert(n < (isqrt_spec(n) + 1) * (isqrt_spec(n) + 1)) by (nonlinear_arith)
                requires
                    isqrt_spec(n) == r + 1,
                    n < (r + 2) * (r + 2),
            ;
        } else {
            assert(n < (isqrt_spec(n) + 1) * (isqrt_spec(n) + 1)) by (nonlinear_arith)
                requires
                    isqrt_spec(n) == r,
                    n < (r + 1) * (r + 1),
            ;
        }
    } else {
        assert(isqrt_spec(0) == 0);
        assert(n < (isqrt_spec(n) + 1) * (isqrt_spec(n) + 1)) by (nonlinear_arith)
            requires
                n == 0,
                isqrt_spec(n) == 0,
        ;
    }
}

pub proof fn lemma_isqrt_unique(n: nat, r: nat)
    requires
        r * r <= n,
        n < (r + 1) * (r + 1),
    ensures
        r == isqrt_spec(n),
{
    lemma_isqrt_bracket(n);
    let s = isqrt_spec(n);
    if r < s {
        assert(false) by (nonlinear_arith)
            requires
                r < s,
                s * s <= n,
                n < (r + 1) * (r + 1),
        ;
    }
    if s < r {
        assert(false) by (nonlinear_arith)
            requires
                s < r,
                r * r <= n,
                n < (s + 1) * (s + 1),
        ;
    }
}

/// Integer square root by bisection.
pub fn isqrt_u64(n: u64) -> (r: u64)
    ensures
        r == isqrt_spec(n as nat),
        r * r <= n < (r + 1) * (r + 1),
        r < 4294967296,
{
    let mut lo: u64 = 0;
    let mut hi: u64 = 4294967296;
    while lo + 1 < hi
        invariant
            lo < hi <= 4294967296,
            lo * lo <= n,
            n < hi * hi,
        decreases hi - lo,
    {
        let mid = lo + (hi - lo) / 2;
        proof {
            assert(mid * mid < 18446744073709551616) by (nonlinear_arith)
                requires
                    mid < 4294967296,
            ;
        }
        if mid * mid <= n {
            lo = mid;
        } else {
            hi = mid;
        }
    }
    proof {
        lemma_isqrt_unique(n as nat, lo as nat);
    }
    lo
}

/// Euclidean remainder of `v` modulo `m`, as the mathematical `%` of the
/// specification language: the result is always in `[0, m)`.
pub fn wrap_mod(v: i64, m: i64) -> (r: i64)
    requires
        0 < m,
        i64::MIN < v,
    ensures
        r == v as int % m as int,
        0 <= r < m,
{
    if v >= 0 {
        proof {
            vstd::arithmetic::div_mod::lemma_mod_bound(v as int, m as int);
        }
        v % m
    } else {
        let k = (-v) % m;
        proof {
            vstd::arithmetic::div_mod::lemma_mod_bound((-v) as int, m as int);
            lemma_neg_mod(v as int, m as int);
        }
        if k == 0 {
            0
        } else {
            m - k
        }
    }
}

proof fn lemma_neg_mod(v: int, m: int)
    requires
        v < 0,
        m > 0,
    ensures
        (-v) % m == 0 ==> v % m == 0,
        (-v) % m != 0 ==> v % m == m - (-v) % m,
{
    let q = (-v) / m;
    let k = (-v) % m;
    vstd::arithmetic::div_mod::lemma_fundamental_div_mod(-v, m);
    vstd::arithmetic::div_mod::lemma_mod_bound(-v, m);
    if k == 0 {
        assert(v == m * (-q) + 0) by (nonlinear_arith)
            requires
                -v == q * m + k,
                k == 0,
        ;
        vstd::arithmetic::div_mod::lemma_mod_multiples_vanish(-q, 0, m);
    } else {
        assert(v == m * (-q - 1) + (m - k)) by (nonlinear_arith)
            requires
                -v == q * m + k,
        ;
        vstd::arithmetic::div_mod::lemma_mod_multiples_vanish(-q - 1, m - k, m);
        vstd::arithmetic::div_mod::lemma_small_mod((m - k) as nat, m as nat);
    }
}

} // verus!
