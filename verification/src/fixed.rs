//! Fixed-point scalars.
//!
//! Every scalar of the drawing pipeline is a signed fixed-point number with
//! sixteen fractional bits: the integer `n` stands for `n / 65536`. Lengths
//! and positions are in pixels.

use vstd::prelude::*;

verus! {

/// The scalar one.
pub const UNIT: i64 = 65536;

/// Width of the softened edge of rounded shapes: an eighth of a pixel.
pub const OFFSET: i64 = 8192;

/// A whole number of pixels as a fixed-point scalar.
pub open spec fn px(n: int) -> int {
    n * UNIT
}

/// `x` limited to the range from zero to one.
pub open spec fn clamp_unit_spec(x: int) -> int {
    if x < 0 {
        0
    } else if x > UNIT {
        UNIT as int
    } else {
        x
    }
}

/// Limits `x` to the range from zero to one.
pub fn clamp_unit(x: i64) -> (c: i64)
    ensures
        c == clamp_unit_spec(x as int),
{
    if x < 0 {
        0
    } else if x > UNIT {
        UNIT
    } else {
        x
    }
}

/// The sign of `x` as a scalar: one for zero and above, minus one below.
pub open spec fn sign_spec(x: int) -> int {
    if x >= 0 {
        UNIT as int
    } else {
        -UNIT
    }
}

/// The sign of `x` as a scalar: one for zero and above, minus one below.
pub fn sign(x: i64) -> (s: i64)
    ensures
        s == sign_spec(x as int),
{
    if x >= 0 {
        UNIT
    } else {
        -UNIT
    }
}

/// The quotient of `a` by a positive `b`, rounded toward zero.
pub open spec fn div_trunc(a: int, b: int) -> int
    recommends
        b > 0,
{
    if a >= 0 {
        a / b
    } else {
        -((-a) / b)
    }
}

/// The whole pixels in the scalar `x`, rounded toward zero.
pub open spec fn whole_spec(x: int) -> int {
    div_trunc(x, UNIT as int)
}

/// The whole pixels in the scalar `x`, rounded toward zero.
pub fn whole(x: i32) -> (w: i32)
    ensures
        w == whole_spec(x as int),
{
    x / 65536
}

/// `r` is the integer square root of `n`: the largest number whose square
/// does not exceed `n`.
pub open spec fn is_isqrt(n: nat, r: nat) -> bool {
    r * r <= n < (r + 1) * (r + 1)
}

/// The integer square root of `n`.
pub open spec fn isqrt_spec(n: nat) -> nat {
    choose|r: nat| is_isqrt(n, r)
}

/// Every number has an integer square root.
pub proof fn lemma_isqrt_exists(n: nat)
    ensures
        is_isqrt(n, isqrt_spec(n)),
    decreases n,
{
    if n == 0 {
        assert(is_isqrt(0, 0)) by (nonlinear_arith);
    } else {
        lemma_isqrt_exists((n - 1) as nat);
        let r = isqrt_spec((n - 1) as nat);
        if n < (r + 1) * (r + 1) {
            assert(is_isqrt(n, r));
        } else {
            assert((r + 1) * (r + 1) <= n < (r + 2) * (r + 2)) by (nonlinear_arith)
                requires
                    r * r <= n - 1 < (r + 1) * (r + 1),
                    n >= (r + 1) * (r + 1),
            ;
            assert(is_isqrt(n, r + 1));
        }
    }
}

/// A number has one integer square root only.
pub proof fn lemma_isqrt_unique(n: nat, r: nat)
    requires
        is_isqrt(n, r),
    ensures
        isqrt_spec(n) == r,
{
    let s = isqrt_spec(n);
    assert(is_isqrt(n, s));
    if s < r {
        assert((s + 1) * (s + 1) <= r * r) by (nonlinear_arith)
            requires
                s + 1 <= r,
        ;
    }
    if r < s {
        assert((r + 1) * (r + 1) <= s * s) by (nonlinear_arith)
            requires
                r + 1 <= s,
        ;
    }
}

/// Upper limit of the argument of [`isqrt`]: two to the power of 98.
pub const ISQRT_LIMIT: u128 = 0x4_0000_0000_0000_0000_0000_0000;

/// The integer square root of `n`, by bisection.
pub fn isqrt(n: u128) -> (r: u64)
    requires
        n < ISQRT_LIMIT,
    ensures
        r == isqrt_spec(n as nat),
        r < 0x2_0000_0000_0000,
{
    let mut lo: u128 = 0;
    let mut hi: u128 = 0x2_0000_0000_0000;
    assert(hi * hi == ISQRT_LIMIT) by (nonlinear_arith)
        requires
            hi == 0x2_0000_0000_0000,
    ;
    while hi - lo > 1
        invariant
            lo < hi <= 0x2_0000_0000_0000,
            lo * lo <= n < hi * hi,
        decreases hi - lo,
    {
        let mid: u128 = lo + (hi - lo) / 2;
        assert(mid * mid < 0x4_0000_0000_0000_0000_0000_0000) by (nonlinear_arith)
            requires
                mid < 0x2_0000_0000_0000,
        ;
        if mid * mid <= n {
            lo = mid;
        } else {
            hi = mid;
        }
    }
    proof {
        lemma_isqrt_unique(n as nat, lo as nat);
    }
    lo as u64
}

} // verus!
