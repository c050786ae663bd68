//! Shared numeric utilities: the rounded-down integer square root used to
//! size the very first deposit.

use vstd::prelude::*;

verus! {

/// `r` is the square root of `n`, rounded down.
pub open spec fn is_sqrt_floor(n: nat, r: nat) -> bool {
    r * r <= n && n < (r + 1) * (r + 1)
}

/// The square root of `n`, rounded down.
pub open spec fn sqrt_floor(n: nat) -> nat {
    choose|r: nat| is_sqrt_floor(n, r)
}

/// Every natural number has a rounded-down square root, and `sqrt_floor`
/// denotes it.
pub proof fn lemma_sqrt_floor_exists(n: nat)
    ensures
        is_sqrt_floor(n, sqrt_floor(n)),
    decreases n,
{
    if n == 0 {
        assert(is_sqrt_floor(0, 0)) by (nonlinear_arith);
    } else {
        lemma_sqrt_floor_exists((n - 1) as nat);
        let s = sqrt_floor((n - 1) as nat);
        if (s + 1) * (s + 1) <= n {
            assert(is_sqrt_floor(n, s + 1)) by (nonlinear_arith)
                requires
                    (s + 1) * (s + 1) <= n,
                    n - 1 < (s + 1) * (s + 1),
            ;
        } else {
            assert(is_sqrt_floor(n, s));
        }
    }
}

/// The rounded-down square root is unique: any witness equals `sqrt_floor`.
pub proof fn lemma_sqrt_floor_unique(n: nat, r: nat)
    requires
        is_sqrt_floor(n, r),
    ensures
        r == sqrt_floor(n),
{
    let w = sqrt_floor(n);
    assert(is_sqrt_floor(n, w));
    assert(r == w) by (nonlinear_arith)
        requires
            r * r <= n < (r + 1) * (r + 1),
            w * w <= n < (w + 1) * (w + 1),
    ;
}

/// The rounded-down square root of a double-width number fits the single
/// width.
pub proof fn lemma_sqrt_floor_fits_u64(n: nat)
    requires
        n <= u128::MAX,
    ensures
        sqrt_floor(n) <= u64::MAX,
{
    lemma_sqrt_floor_exists(n);
    let r = sqrt_floor(n);
    assert(r <= u64::MAX) by (nonlinear_arith)
        requires
            r * r <= n,
            n <= u128::MAX,
    ;
}

/// Computes the square root of `n`, rounded down, by binary search.
pub fn isqrt(n: u128) -> (r: u64)
    ensures
        r == sqrt_floor(n as nat),
        is_sqrt_floor(n as nat, r as nat),
{
    let mut lo: u128 = 0;
    let mut hi: u128 = 0x1_0000_0000_0000_0000;
    proof {
        assert((hi as nat) * (hi as nat) > n as nat) by (nonlinear_arith)
            requires
                hi == 0x1_0000_0000_0000_0000u128,
                n <= u128::MAX,
        ;
    }
    while lo + 1 < hi
        invariant
            lo < hi <= 0x1_0000_0000_0000_0000u128,
            (lo as nat) * (lo as nat) <= n as nat,
            (n as nat) < (hi as nat) * (hi as nat),
        decreases hi - lo,
    {
        let mid: u128 = lo + (hi - lo) / 2;
        proof {
            assert((mid as nat) * (mid as nat) <= u128::MAX) by (nonlinear_arith)
                requires
                    mid < 0x1_0000_0000_0000_0000u128,
            ;
        }
        if mid * mid <= n {
            lo = mid;
        } else {
            hi = mid;
        }
    }
    proof {
        assert(is_sqrt_floor(n as nat, lo as nat));
        lemma_sqrt_floor_unique(n as nat, lo as nat);
    }
    lo as u64
}

} // verus!
