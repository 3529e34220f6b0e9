//! Experience-to-level progression.
//!
//! A profile's level is derived from its accumulated experience points:
//! `level = floor(sqrt(xp / 100)) + 1`.  The derivation is pure, total and
//! monotonically non-decreasing in `xp`.

use vstd::prelude::*;

verus! {

/// `r` is the integer square root of `n`: the unique natural number with
/// `r * r <= n < (r + 1) * (r + 1)`.
pub open spec fn is_isqrt_of(n: nat, r: nat) -> bool {
    r * r <= n < (r + 1) * (r + 1)
}

/// The integer square root of `n` (`floor(sqrt(n))`).
pub closed spec fn isqrt(n: nat) -> nat {
    choose|r: nat| is_isqrt_of(n, r)
}

/// The level derived from `xp` experience points:
/// `floor(sqrt(xp / 100)) + 1`.
pub open spec fn level_of(xp: u64) -> u32 {
    (isqrt(xp as nat / 100) + 1) as u32
}

/// Squaring is monotonic over the naturals.
proof fn lemma_square_le(a: nat, b: nat)
    requires
        a <= b,
    ensures
        a * a <= b * b,
{
    assert(a * a <= b * b) by (nonlinear_arith)
        requires
            a <= b,
    ;
}

/// Every natural number has an integer square root.
pub proof fn lemma_isqrt_exists(n: nat)
    ensures
        is_isqrt_of(n, isqrt(n)),
    decreases n,
{
    if n == 0 {
        assert(is_isqrt_of(0, 0)) by (nonlinear_arith);
    } else {
        lemma_isqrt_exists((n - 1) as nat);
        let r = isqrt((n - 1) as nat);
        if n < (r + 1) * (r + 1) {
            assert(is_isqrt_of(n, r));
        } else {
            assert(n == (r + 1) * (r + 1));
            assert(is_isqrt_of(n, r + 1)) by (nonlinear_arith)
                requires
                    n == (r + 1) * (r + 1),
            ;
        }
        assert(exists|q: nat| is_isqrt_of(n, q));
        assert(is_isqrt_of(n, isqrt(n)));
    }
}

/// The integer square root is unique.
pub proof fn lemma_isqrt_unique(n: nat, r: nat)
    requires
        is_isqrt_of(n, r),
    ensures
        r == isqrt(n),
{
    lemma_isqrt_exists(n);
    let q = isqrt(n);
    if r < q {
        lemma_square_le(r + 1, q);
    }
    if q < r {
        lemma_square_le(q + 1, r);
    }
}

/// The integer square root is monotonic.
pub proof fn lemma_isqrt_monotonic(a: nat, b: nat)
    requires
        a <= b,
    ensures
        isqrt(a) <= isqrt(b),
{
    lemma_isqrt_exists(a);
    lemma_isqrt_exists(b);
    if isqrt(b) < isqrt(a) {
        lemma_square_le(isqrt(b) + 1, isqrt(a));
    }
}

/// The largest value an integer square root can take on the inputs
/// `calculate_level_of_xp` produces (`u64::MAX / 100` and below).
pub const ISQRT_CEILING: u64 = 429496730;

/// Computes the integer square root of `n` by binary search.
fn isqrt_u64(n: u64) -> (r: u64)
    requires
        n <= u64::MAX as nat / 100,
    ensures
        is_isqrt_of(n as nat, r as nat),
{
    proof {
        assert((ISQRT_CEILING as nat) * (ISQRT_CEILING as nat) > u64::MAX as nat / 100);
    }
    if n == 0 {
        proof {
            assert(is_isqrt_of(0, 0)) by (nonlinear_arith);
        }
        return 0;
    }
    let mut lo: u64 = 0;
    let mut hi: u64 = ISQRT_CEILING;
    while lo + 1 < hi
        invariant
            lo < hi <= ISQRT_CEILING,
            (lo as nat) * (lo as nat) <= n as nat,
            (n as nat) < (hi as nat) * (hi as nat),
        decreases hi - lo,
    {
        let mid = lo + (hi - lo) / 2;
        proof {
            lemma_square_le(mid as nat, (ISQRT_CEILING - 1) as nat);
        }
        if mid * mid <= n {
            lo = mid;
        } else {
            hi = mid;
        }
    }
    lo
}

/// The level that `xp` experience points confer: `floor(sqrt(xp / 100)) + 1`.
///
/// Pure and total; every stored profile keeps `level` equal to
/// `level_of(xp)` after each mutation of `xp`.
pub fn calculate_level_of_xp(xp: u64) -> (level: u32)
    ensures
        level == level_of(xp),
{
    let r = isqrt_u64(xp / 100);
    proof {
        lemma_isqrt_unique(xp as nat / 100, r as nat);
        lemma_isqrt_bound(xp as nat / 100);
    }
    (r as u32) + 1
}

/// On the inputs a `u64` xp can produce, the integer square root stays
/// below `ISQRT_CEILING`, so the level always fits in a `u32`.
pub proof fn lemma_isqrt_bound(n: nat)
    requires
        n <= u64::MAX as nat / 100,
    ensures
        isqrt(n) < ISQRT_CEILING as nat,
{
    lemma_isqrt_exists(n);
    if isqrt(n) >= ISQRT_CEILING as nat {
        lemma_square_le(ISQRT_CEILING as nat, isqrt(n));
    }
}

/// The level derivation is monotonic: more experience never lowers a level.
pub proof fn lemma_level_monotonic(xp1: u64, xp2: u64)
    requires
        xp1 <= xp2,
    ensures
        level_of(xp1) <= level_of(xp2),
{
    lemma_isqrt_monotonic(xp1 as nat / 100, xp2 as nat / 100);
    lemma_isqrt_bound(xp1 as nat / 100);
    lemma_isqrt_bound(xp2 as nat / 100);
}

/// The level is exactly one more than the integer square root of `xp / 100`:
/// `(level - 1)^2 <= xp / 100 < level^2`.
pub proof fn lemma_level_exact(xp: u64)
    ensures
        1 <= level_of(xp),
        ((level_of(xp) - 1) * (level_of(xp) - 1)) as nat <= xp as nat / 100,
        (xp as nat / 100) < (level_of(xp) as nat) * (level_of(xp) as nat),
{
    lemma_isqrt_exists(xp as nat / 100);
    lemma_isqrt_bound(xp as nat / 100);
}

} // verus!
