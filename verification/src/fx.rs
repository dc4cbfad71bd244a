//! Fixed-point scalar arithmetic.
//!
//! A quantity of one world unit is stored as `FX_ONE` ticks of an `i64`.
//! Products of two fixed-point numbers are re-scaled with truncation toward
//! zero, the rounding a hardware float multiply-then-truncate would give.

use vstd::prelude::*;

verus! {

/// Number of fixed-point ticks in one world unit.
pub const FX_ONE: i64 = 10000;

/// Largest magnitude accepted by [`fmul`]: the product of two such values
/// still fits in an `i64`.
pub const FMUL_LIMIT: i64 = 3_000_000_000;

/// Magnitude of an integer.
pub open spec fn iabs(a: int) -> int {
    if a >= 0 {
        a
    } else {
        -a
    }
}

/// Division rounding toward zero (the rounding of Rust's integer `/`).
pub open spec fn tdiv_spec(a: int, b: int) -> int {
    if a >= 0 {
        a / b
    } else {
        -((-a) / b)
    }
}

/// Fixed-point product: the wide product re-scaled, rounded toward zero.
pub open spec fn fmul_spec(a: int, b: int) -> int {
    tdiv_spec(a * b, FX_ONE as int)
}

/// Division rounding half away from zero (the rounding of a float `round`).
pub open spec fn round_div_spec(a: int, b: int) -> int {
    if a >= 0 {
        (a + b / 2) / b
    } else {
        -((-a + b / 2) / b)
    }
}

/// Clamp a value into `[-lim, lim]`.
pub open spec fn clamp_spec(v: int, lim: int) -> int {
    if v > lim {
        lim
    } else if v < -lim {
        -lim
    } else {
        v
    }
}

/// Integer square root, rounded down.
pub open spec fn isqrt_spec(n: nat) -> nat
    decreases n,
{
    if n == 0 {
        0
    } else {
        let r = isqrt_spec((n - 1) as nat);
        if (r + 1) * (r + 1) <= n {
            r + 1
        } else {
            r
        }
    }
}

/// The square root rounded down is the unique value whose square does not
/// exceed the argument while the next square does.
pub proof fn lemma_isqrt_props(n: nat)
    ensures
        isqrt_spec(n) * isqrt_spec(n) <= n,
        n < (isqrt_spec(n) + 1) * (isqrt_spec(n) + 1),
    decreases n,
{
    if n == 0 {
        assert(isqrt_spec(0) == 0);
        assert(n < (isqrt_spec(n) + 1) * (isqrt_spec(n) + 1)) by (nonlinear_arith)
            requires
                n == 0,
                isqrt_spec(n) == 0,
        ;
    } else {
        lemma_isqrt_props((n - 1) as nat);
        let r = isqrt_spec((n - 1) as nat);
        assert(isqrt_spec(n) == if (r + 1) * (r + 1) <= n {
            r + 1
        } else {
            r
        });
        if (r + 1) * (r + 1) <= n {
            assert(isqrt_spec(n) == r + 1);
            assert(n < (isqrt_spec(n) + 1) * (isqrt_spec(n) + 1)) by (nonlinear_arith)
                requires
                    n - 1 < (r + 1) * (r + 1),
                    r >= 0,
                    isqrt_spec(n) == r + 1,
            ;
        } else {
            assert(isqrt_spec(n) == r);
            assert(r * r <= n - 1 <= n);
        }
    }
}

pub proof fn lemma_isqrt_unique(n: nat, r: nat)
    requires
        r * r <= n,
        n < (r + 1) * (r + 1),
    ensures
        r == isqrt_spec(n),
{
    lemma_isqrt_props(n);
    let s = isqrt_spec(n);
    if r < s {
        assert((r + 1) * (r + 1) <= s * s) by (nonlinear_arith)
            requires
                r + 1 <= s,
                r >= 0,
        ;
    }
    if s < r {
        assert((s + 1) * (s + 1) <= r * r) by (nonlinear_arith)
            requires
                s + 1 <= r,
                s >= 0,
        ;
    }
}

/// The square root rounded down never decreases.
pub proof fn lemma_isqrt_monotone(m: nat, n: nat)
    requires
        m <= n,
    ensures
        isqrt_spec(m) <= isqrt_spec(n),
{
    lemma_isqrt_props(m);
    lemma_isqrt_props(n);
    let a = isqrt_spec(m);
    let b = isqrt_spec(n);
    if b < a {
        assert((b + 1) * (b + 1) <= a * a) by (nonlinear_arith)
            requires
                b + 1 <= a,
                b >= 0,
        ;
    }
}

/// Division by a positive number rounded toward zero never grows a value.
pub proof fn lemma_tdiv_bound(a: int, b: int)
    requires
        b >= 1,
    ensures
        iabs(tdiv_spec(a, b)) <= iabs(a),
        iabs(a) < b ==> tdiv_spec(a, b) == 0,
{
    if a >= 0 {
        assert(a / b <= a && a / b >= 0 && (a < b ==> a / b == 0)) by (nonlinear_arith)
            requires
                a >= 0,
                b >= 1,
        ;
    } else {
        assert((-a) / b <= -a && (-a) / b >= 0 && (-a < b ==> (-a) / b == 0)) by (nonlinear_arith)
            requires
                a < 0,
                b >= 1,
        ;
    }
}

/// Division rounded toward zero is monotone in magnitude.
pub proof fn lemma_tdiv_le(a: int, c: int, b: int)
    requires
        b >= 1,
        iabs(a) <= c,
    ensures
        iabs(tdiv_spec(a, b)) <= c / b,
{
    lemma_tdiv_bound(a, b);
    if a >= 0 {
        assert(a / b <= c / b) by (nonlinear_arith)
            requires
                0 <= a <= c,
                b >= 1,
        ;
    } else {
        assert((-a) / b <= c / b) by (nonlinear_arith)
            requires
                0 <= -a <= c,
                b >= 1,
        ;
    }
}

/// The magnitude of a fixed-point product is at most the scaled product of
/// the magnitudes.
pub proof fn lemma_fmul_bound(a: int, b: int, ca: int, cb: int)
    requires
        iabs(a) <= ca,
        iabs(b) <= cb,
    ensures
        iabs(fmul_spec(a, b)) <= (ca * cb) / (FX_ONE as int),
        iabs(a * b) <= ca * cb,
{
    assert(iabs(a * b) <= ca * cb) by (nonlinear_arith)
        requires
            iabs(a) <= ca,
            iabs(b) <= cb,
    ;
    lemma_tdiv_le(a * b, ca * cb, FX_ONE as int);
}

/// Division rounding toward zero.
pub fn tdiv(a: i64, b: i64) -> (r: i64)
    requires
        b > 0,
        a > i64::MIN,
    ensures
        r == tdiv_spec(a as int, b as int),
        iabs(r as int) <= iabs(a as int),
{
    proof {
        lemma_tdiv_bound(a as int, b as int);
    }
    if a >= 0 {
        let q: u64 = (a as u64) / (b as u64);
        q as i64
    } else {
        let n: u64 = (-a) as u64;
        let q: u64 = n / (b as u64);
        -(q as i64)
    }
}

/// Fixed-point product, rounded toward zero.
pub fn fmul(a: i64, b: i64) -> (r: i64)
    requires
        -FMUL_LIMIT <= a <= FMUL_LIMIT,
        -FMUL_LIMIT <= b <= FMUL_LIMIT,
    ensures
        r == fmul_spec(a as int, b as int),
        iabs(r as int) <= iabs(a as int) * iabs(b as int) / (FX_ONE as int),
{
    proof {
        lemma_fmul_bound(a as int, b as int, iabs(a as int), iabs(b as int));
        assert(iabs(a as int * b as int) <= FMUL_LIMIT as int * FMUL_LIMIT as int)
            by (nonlinear_arith)
            requires
                iabs(a as int) <= FMUL_LIMIT as int,
                iabs(b as int) <= FMUL_LIMIT as int,
        ;
    }
    let p: i64 = a * b;
    tdiv(p, FX_ONE)
}

/// Division rounding half away from zero.
pub fn round_div(a: i64, b: i64) -> (r: i64)
    requires
        b > 0,
        -4_000_000_000_000_000_000 <= a <= 4_000_000_000_000_000_000,
    ensures
        r == round_div_spec(a as int, b as int),
        iabs(r as int) <= iabs(a as int) + 1,
{
    if a >= 0 {
        let n: u64 = (a as u64) + (b as u64) / 2;
        let q: u64 = n / (b as u64);
        proof {
            assert(q <= n && q <= a + 1) by (nonlinear_arith)
                requires
                    q == n as int / b as int,
                    n == a + b as int / 2,
                    a >= 0,
                    b >= 1,
            ;
        }
        q as i64
    } else {
        let n: u64 = ((-a) as u64) + (b as u64) / 2;
        let q: u64 = n / (b as u64);
        proof {
            assert(q <= n && q <= -a + 1) by (nonlinear_arith)
                requires
                    q == n as int / b as int,
                    n == -a + b as int / 2,
                    a < 0,
                    b >= 1,
            ;
        }
        -(q as i64)
    }
}

/// Clamp a value into `[-lim, lim]`.
pub fn clamp_fx(v: i64, lim: i64) -> (r: i64)
    requires
        lim >= 0,
    ensures
        r == clamp_spec(v as int, lim as int),
        iabs(r as int) <= lim,
{
    if v > lim {
        lim
    } else if v < -lim {
        -lim
    } else {
        v
    }
}

/// Magnitude of an `i64`.
pub fn iabs64(v: i64) -> (r: i64)
    requires
        v > i64::MIN,
    ensures
        r == iabs(v as int),
{
    if v < 0 {
        -v
    } else {
        v
    }
}

/// Integer square root, rounded down.
pub fn isqrt(n: u64) -> (r: u64)
    ensures
        r == isqrt_spec(n as nat),
        r * r <= n,
        n < (r + 1) * (r + 1),
        r <= 4294967295,
{
    let mut lo: u64 = 0;
    let mut hi: u64 = if n < 4294967295 {
        n
    } else {
        4294967295
    };
    proof {
        if n < 4294967295 {
            assert(n < (n + 1) * (n + 1)) by (nonlinear_arith);
        } else {
            assert((4294967295int + 1) * (4294967295int + 1) > u64::MAX as int) by (nonlinear_arith);
        }
    }
    while lo < hi
        invariant
            lo <= hi <= 4294967295,
            lo * lo <= n,
            n < (hi + 1) * (hi + 1),
        decreases hi - lo,
    {
        let mid: u64 = lo + (hi - lo + 1) / 2;
        proof {
            assert(mid * mid <= 4294967295u64 * 4294967295u64) by (nonlinear_arith)
                requires
                    0 <= mid <= 4294967295u64,
            ;
        }
        if mid * mid <= n {
            lo = mid;
        } else {
            hi = mid - 1;
        }
    }
    proof {
        lemma_isqrt_unique(n as nat, lo as nat);
    }
    lo
}

/// Scaling by a unit-scale factor never grows a magnitude past the scaled
/// operand's bound.
pub proof fn lemma_unit_scale_bound(u: int, d: int, dmax: int)
    requires
        iabs(u) <= FX_ONE as int,
        iabs(d) <= dmax,
    ensures
        iabs(u) * iabs(d) / (FX_ONE as int) <= dmax,
        iabs(fmul_spec(u, d)) <= dmax,
{
    lemma_fmul_bound(u, d, iabs(u), iabs(d));
    assert(iabs(u) * iabs(d) <= FX_ONE as int * dmax) by (nonlinear_arith)
        requires
            0 <= iabs(u) <= FX_ONE as int,
            0 <= iabs(d) <= dmax,
    ;
    assert((iabs(u) * iabs(d)) / (FX_ONE as int) <= (FX_ONE as int * dmax) / (FX_ONE as int)
        && (FX_ONE as int * dmax) / (FX_ONE as int) == dmax) by (nonlinear_arith)
        requires
            0 <= iabs(u) * iabs(d) <= FX_ONE as int * dmax,
            dmax >= 0,
    ;
    lemma_tdiv_le(u * d, iabs(u) * iabs(d), FX_ONE as int);
    assert(iabs(tdiv_spec(u * d, FX_ONE as int)) <= (iabs(u) * iabs(d)) / (FX_ONE as int));
}

} // verus!
