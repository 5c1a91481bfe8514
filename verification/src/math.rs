use vstd::prelude::*;

verus! {

/// The integer square root: the largest `r` with `r * r <= n`. Defined by
/// counting up, so that every value is pinned exactly; the executable
/// [`isqrt`] below computes it by binary search. Quadratic vote weighting
/// goes through this function, keeping the committed state path free of
/// floating point and identical on every replay.
pub open spec fn isqrt_spec(n: nat) -> nat
    decreases n,
{
    if n == 0 {
        0
    } else {
        let p = isqrt_spec((n - 1) as nat);
        if (p + 1) * (p + 1) <= n {
            p + 1
        } else {
            p
        }
    }
}

/// The integer square root is never rounded up: its square is at most `n`,
/// and the next square is strictly above `n`.
pub proof fn lemma_isqrt_spec_bounds(n: nat)
    ensures
        isqrt_spec(n) * isqrt_spec(n) <= n,
        n < (isqrt_spec(n) + 1) * (isqrt_spec(n) + 1),
    decreases n,
{
    if n > 0 {
        lemma_isqrt_spec_bounds((n - 1) as nat);
        let p = isqrt_spec((n - 1) as nat);
        assert(p * p <= n - 1);
        assert(n - 1 < (p + 1) * (p + 1));
        if (p + 1) * (p + 1) <= n {
            assert(isqrt_spec(n) == p + 1);
            assert(isqrt_spec(n) * isqrt_spec(n) <= n) by (nonlinear_arith)
                requires
                    isqrt_spec(n) == p + 1,
                    (p + 1) * (p + 1) <= n,
            ;
            assert(n < (isqrt_spec(n) + 1) * (isqrt_spec(n) + 1)) by (nonlinear_arith)
                requires
                    isqrt_spec(n) == p + 1,
                    n - 1 < (p + 1) * (p + 1),
                    n > 0,
            ;
        } else {
            assert(isqrt_spec(n) == p);
            assert(isqrt_spec(n) * isqrt_spec(n) <= n) by (nonlinear_arith)
                requires
                    isqrt_spec(n) == p,
                    p * p <= n - 1,
                    n > 0,
            ;
            assert(n < (isqrt_spec(n) + 1) * (isqrt_spec(n) + 1)) by (nonlinear_arith)
                requires
                    isqrt_spec(n) == p,
                    !((p + 1) * (p + 1) <= n),
            ;
        }
    } else {
        assert(isqrt_spec(n) == 0);
        assert(isqrt_spec(n) * isqrt_spec(n) <= n) by (nonlinear_arith)
            requires
                isqrt_spec(n) == 0,
                n == 0,
        ;
        assert(n < (isqrt_spec(n) + 1) * (isqrt_spec(n) + 1)) by (nonlinear_arith)
            requires
                isqrt_spec(n) == 0,
                n == 0,
        ;
    }
}

/// Any `r` whose square is at most `n` while the next square is above `n`
/// is the integer square root of `n`.
pub proof fn lemma_isqrt_unique(n: nat, r: nat)
    requires
        r * r <= n,
        n < (r + 1) * (r + 1),
    ensures
        r == isqrt_spec(n),
{
    let s = isqrt_spec(n);
    lemma_isqrt_spec_bounds(n);
    if r < s {
        assert(false) by (nonlinear_arith)
            requires
                r + 1 <= s,
                s * s <= n,
                n < (r + 1) * (r + 1),
        ;
    }
    if s < r {
        assert(false) by (nonlinear_arith)
            requires
                s + 1 <= r,
                r * r <= n,
                n < (s + 1) * (s + 1),
        ;
    }
}

/// Deterministic integer square root by binary search.
pub fn isqrt(n: u64) -> (r: u64)
    ensures
        r == isqrt_spec(n as nat),
        (r as int) * (r as int) <= n as int,
        (n as int) < (r as int + 1) * (r as int + 1),
{
    let mut lo: u64 = 0;
    let mut hi: u64 = 4_294_967_296;
    proof {
        assert((lo as int) * (lo as int) <= n as int) by (nonlinear_arith)
            requires
                lo == 0,
        ;
        assert((n as int) < (hi as int) * (hi as int)) by (nonlinear_arith)
            requires
                hi == 4_294_967_296,
                n <= u64::MAX,
        ;
    }
    while lo + 1 < hi
        invariant
            lo < hi <= 4_294_967_296,
            (lo as int) * (lo as int) <= n as int,
            (n as int) < (hi as int) * (hi as int),
        decreases hi - lo,
    {
        let mid: u64 = lo + (hi - lo) / 2;
        proof {
            assert((mid as int) * (mid as int) <= u64::MAX as int) by (nonlinear_arith)
                requires
                    mid < 4_294_967_296,
            ;
        }
        if mid * mid <= n {
            lo = mid;
        } else {
            hi = mid;
        }
    }
    proof {
        assert((n as int) < (lo as int + 1) * (lo as int + 1)) by (nonlinear_arith)
            requires
                hi == lo + 1,
                (n as int) < (hi as int) * (hi as int),
        ;
        lemma_isqrt_unique(n as nat, lo as nat);
    }
    lo
}

} // verus!
