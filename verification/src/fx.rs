//! Fixed-point scalars.
//!
//! A scalar is an `i64` holding the real value scaled by [`FX_ONE`]
//! (one million), so `1.5` is stored as `1_500_000`. Products and
//! quotients rescale with truncation toward zero, which is exactly what
//! `/` does on `i64` for a positive divisor.

use vstd::arithmetic::div_mod::{
    lemma_div_is_ordered, lemma_div_is_ordered_by_denominator, lemma_div_multiples_vanish,
};
use vstd::prelude::*;

verus! {

/// The fixed-point scale: stored value = real value * FX_ONE.
pub const FX_ONE: i64 = 1_000_000;

/// General magnitude bound on scene scalars (real magnitude 2000),
/// chosen so that sums of products of bounded scalars stay inside `i64`.
pub const FX_LIMIT: i64 = 2_000_000_000;

/// Truncating division (round toward zero), the rounding `/` performs on
/// `i64` when the divisor is positive.
pub open spec fn trunc_div(a: int, b: int) -> int {
    if a >= 0 {
        a / b
    } else {
        -((-a) / b)
    }
}

/// The fixed-point product of `a` and `b`.
pub open spec fn spec_fx_mul(a: int, b: int) -> int {
    trunc_div(a * b, FX_ONE as int)
}

/// The fixed-point quotient of `a` by `b`.
pub open spec fn spec_fx_div(a: int, b: int) -> int {
    trunc_div(a * FX_ONE, b)
}

/// `i64` addition saturating at the type's bounds.
pub open spec fn spec_sat_add(a: int, b: int) -> int {
    if a + b > i64::MAX {
        i64::MAX as int
    } else if a + b < i64::MIN {
        i64::MIN as int
    } else {
        a + b
    }
}

/// Floor of the square root of `n`.
pub open spec fn spec_isqrt(n: nat) -> nat
    decreases n,
{
    if n == 0 {
        0
    } else {
        let p = spec_isqrt((n - 1) as nat);
        if (p + 1) * (p + 1) <= n {
            p + 1
        } else {
            p
        }
    }
}

/// A nonnegative value divided by a positive divisor shrinks toward zero.
pub proof fn lemma_trunc_div_sign(p: int, d: int)
    requires
        d >= 1,
    ensures
        p >= 0 ==> 0 <= trunc_div(p, d) <= p,
        p < 0 ==> p <= trunc_div(p, d) <= 0,
{
    if p >= 0 {
        lemma_div_is_ordered(0, p, d);
        assert(0int / d == 0) by {
            lemma_div_multiples_vanish(0, d);
        }
        lemma_div_is_ordered_by_denominator(p, 1, d);
        assert(p / 1 == p) by {
            lemma_div_multiples_vanish(p, 1);
        }
    } else {
        lemma_div_is_ordered(0, -p, d);
        assert(0int / d == 0) by {
            lemma_div_multiples_vanish(0, d);
        }
        lemma_div_is_ordered_by_denominator(-p, 1, d);
        assert((-p) / 1 == -p) by {
            lemma_div_multiples_vanish(-p, 1);
        }
    }
}

/// Truncating division respects a symmetric magnitude bound.
pub proof fn lemma_trunc_div_le(p: int, d: int, m: int)
    requires
        d >= 1,
        m >= 0,
        -(m * d) <= p <= m * d,
    ensures
        -m <= trunc_div(p, d) <= m,
{
    lemma_trunc_div_sign(p, d);
    assert((m * d) / d == m) by {
        lemma_div_multiples_vanish(m, d);
        assert(m * d == d * m) by (nonlinear_arith);
    }
    if p >= 0 {
        lemma_div_is_ordered(p, m * d, d);
    } else {
        lemma_div_is_ordered(-p, m * d, d);
    }
}

/// Dividing an exact multiple is exact, for either sign.
pub proof fn lemma_trunc_div_exact(m: int, d: int)
    requires
        d >= 1,
    ensures
        trunc_div(m * d, d) == m,
{
    if m >= 0 {
        assert((m * d) / d == m) by {
            lemma_div_multiples_vanish(m, d);
            assert(m * d == d * m) by (nonlinear_arith);
        }
    } else {
        assert(-(m * d) == (-m) * d) by (nonlinear_arith);
        assert(((-m) * d) / d == -m) by {
            lemma_div_multiples_vanish(-m, d);
            assert((-m) * d == d * (-m)) by (nonlinear_arith);
        }
    }
}

/// One is the multiplicative unit of the fixed-point product.
pub proof fn lemma_fx_mul_one(a: int)
    ensures
        spec_fx_mul(a, FX_ONE as int) == a,
        spec_fx_mul(FX_ONE as int, a) == a,
{
    lemma_trunc_div_exact(a, FX_ONE as int);
}

/// Zero annihilates the fixed-point product.
pub proof fn lemma_fx_mul_zero(a: int)
    ensures
        spec_fx_mul(a, 0) == 0,
        spec_fx_mul(0, a) == 0,
{
    lemma_trunc_div_exact(0, FX_ONE as int);
}

/// Magnitude bound for the fixed-point product: if one factor is at most
/// `m` and the other at most one, the product is at most `m`.
pub proof fn lemma_fx_mul_le(a: int, b: int, m: int)
    requires
        m >= 0,
        -m <= a <= m,
        -(FX_ONE as int) <= b <= FX_ONE as int,
    ensures
        -m <= spec_fx_mul(a, b) <= m,
{
    assert(-(m * FX_ONE) <= a * b <= m * FX_ONE) by (nonlinear_arith)
        requires
            m >= 0,
            -m <= a <= m,
            -(FX_ONE as int) <= b <= FX_ONE as int,
    ;
    lemma_trunc_div_le(a * b, FX_ONE as int, m);
}

/// `spec_isqrt` really is the floor of the square root.
#[verifier::rlimit(50)]
pub proof fn lemma_isqrt_bounds(n: nat)
    ensures
        spec_isqrt(n) * spec_isqrt(n) <= n < (spec_isqrt(n) + 1) * (spec_isqrt(n) + 1),
    decreases n,
{
    if n > 0 {
        lemma_isqrt_bounds((n - 1) as nat);
        let p = spec_isqrt((n - 1) as nat);
        let r = spec_isqrt(n);
        assert(p * p <= n - 1 < (p + 1) * (p + 1));
        if (p + 1) * (p + 1) <= n {
            assert(r == p + 1);
            assert(r * r <= n);
            assert(n < (r + 1) * (r + 1)) by (nonlinear_arith)
                requires
                    n - 1 < (p + 1) * (p + 1),
                    r == p + 1,
            ;
        } else {
            assert(r == p);
            assert(r * r <= n);
            assert(n < (r + 1) * (r + 1));
        }
    } else {
        assert(spec_isqrt(0) == 0);
        assert(spec_isqrt(n) * spec_isqrt(n) <= n) by (nonlinear_arith)
            requires
                n == 0,
                spec_isqrt(n) == 0,
        ;
        assert(n < (spec_isqrt(n) + 1) * (spec_isqrt(n) + 1)) by (nonlinear_arith)
            requires
                n == 0,
                spec_isqrt(n) == 0,
        ;
    }
}

/// Any value that brackets `n` between consecutive squares is the square root.
pub proof fn lemma_isqrt_unique(n: nat, r: nat)
    requires
        r * r <= n < (r + 1) * (r + 1),
    ensures
        r == spec_isqrt(n),
{
    let s = spec_isqrt(n);
    lemma_isqrt_bounds(n);
    if r < s {
        assert((r + 1) * (r + 1) <= s * s) by (nonlinear_arith)
            requires
                r + 1 <= s,
        ;
    }
    if s < r {
        assert((s + 1) * (s + 1) <= r * r) by (nonlinear_arith)
            requires
                s + 1 <= r,
        ;
    }
}

/// The square root is monotone with respect to squared bounds.
pub proof fn lemma_isqrt_le(n: nat, b: nat)
    requires
        n <= b * b,
    ensures
        spec_isqrt(n) <= b,
{
    lemma_isqrt_bounds(n);
    let r = spec_isqrt(n);
    if b < r {
        assert((b + 1) * (b + 1) <= r * r) by (nonlinear_arith)
            requires
                b + 1 <= r,
        ;
        assert(b * b < (b + 1) * (b + 1)) by (nonlinear_arith);
    }
}

/// A square below `n` has its root below the square root of `n`.
pub proof fn lemma_square_le_isqrt(x: nat, n: nat)
    requires
        x * x <= n,
    ensures
        x <= spec_isqrt(n),
{
    lemma_isqrt_bounds(n);
    let r = spec_isqrt(n);
    if r < x {
        assert((r + 1) * (r + 1) <= x * x) by (nonlinear_arith)
            requires
                r + 1 <= x,
        ;
    }
}

/// Largest numerator magnitude accepted by [`fx_div`].
pub const FX_DIV_LIMIT: i64 = 9_000_000_000_000;

/// A value whose square is below `n` lies within the square root of `n`.
pub proof fn lemma_abs_le_isqrt(x: int, n: nat)
    requires
        x * x <= n,
    ensures
        -(spec_isqrt(n) as int) <= x <= spec_isqrt(n) as int,
{
    if x >= 0 {
        assert((x as nat) * (x as nat) == x * x) by (nonlinear_arith)
            requires
                x >= 0,
        ;
        lemma_square_le_isqrt(x as nat, n);
    } else {
        let y = -x;
        assert(y * y == x * x) by (nonlinear_arith)
            requires
                y == -x,
        ;
        assert((y as nat) * (y as nat) == y * y) by (nonlinear_arith)
            requires
                y >= 0,
        ;
        lemma_square_le_isqrt(y as nat, n);
    }
}

/// Fixed-point product, truncated toward zero.
pub fn fx_mul(a: i64, b: i64) -> (r: i64)
    requires
        -FX_LIMIT <= a <= FX_LIMIT,
        -FX_LIMIT <= b <= FX_LIMIT,
    ensures
        r == spec_fx_mul(a as int, b as int),
{
    proof {
        assert(-0x7fff_ffff_ffff_ffff <= a * b <= 0x7fff_ffff_ffff_ffff) by (nonlinear_arith)
            requires
                -FX_LIMIT <= a <= FX_LIMIT,
                -FX_LIMIT <= b <= FX_LIMIT,
        ;
    }
    let p = a * b;
    proof {
        lemma_trunc_div_sign(p as int, FX_ONE as int);
    }
    p / FX_ONE
}

/// Fixed-point quotient, truncated toward zero. The divisor must be positive.
pub fn fx_div(a: i64, b: i64) -> (r: i64)
    requires
        b >= 1,
        -FX_DIV_LIMIT <= a <= FX_DIV_LIMIT,
    ensures
        r == spec_fx_div(a as int, b as int),
{
    let p = a * FX_ONE;
    proof {
        lemma_trunc_div_sign(p as int, b as int);
    }
    p / b
}

/// Saturating `i64` addition.
pub fn sat_add(a: i64, b: i64) -> (r: i64)
    ensures
        r == spec_sat_add(a as int, b as int),
{
    match a.checked_add(b) {
        Some(v) => v,
        None => if b >= 0 {
            i64::MAX
        } else {
            i64::MIN
        },
    }
}

/// Upper end of the square-root search: the root of a `u128` fits in 64 bits.
const ISQRT_HI: u128 = 0x1_0000_0000_0000_0000;

/// Floor of the square root, by binary search.
pub fn isqrt(n: u128) -> (r: u128)
    ensures
        r == spec_isqrt(n as nat),
{
    let mut lo: u128 = 0;
    let mut hi: u128 = ISQRT_HI;
    proof {
        assert(n < ISQRT_HI * ISQRT_HI) by (nonlinear_arith)
            requires
                n <= u128::MAX,
        ;
    }
    while lo + 1 < hi
        invariant
            lo < hi <= ISQRT_HI,
            lo * lo <= n,
            n < hi * hi,
        decreases hi - lo,
    {
        let mid = lo + (hi - lo) / 2;
        proof {
            assert(mid * mid <= u128::MAX) by (nonlinear_arith)
                requires
                    mid < ISQRT_HI,
            ;
        }
        if mid * mid <= n {
            lo = mid;
        } else {
            hi = mid;
        }
    }
    proof {
        lemma_isqrt_unique(n as nat, lo as nat);
    }
    lo
}

} // verus!
