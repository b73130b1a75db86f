//! Fixed-point circular functions over angles in nanoradians.
//!
//! An angle is an integer count of nanoradians (`10^-9` rad); a function
//! value is an integer scaled by `SCALE`. Every executable function is
//! pinned to a spec-level mirror of the same integer computation, so that
//! geometric facts (symmetry, zero at zero) can be proved about callers.

use vstd::prelude::*;

verus! {

/// Value scale: function values are `sin(x) * SCALE` rounded toward zero.
pub const SCALE: u64 = 1_000_000_000;

/// Pi in nanoradians.
pub const PI_N: u64 = 3_141_592_654;

/// Pi / 2 in nanoradians.
pub const HALF_PI_N: u64 = 1_570_796_327;

/// 2 * Pi in nanoradians.
pub const TWO_PI_N: u64 = 6_283_185_307;

/// Truncated Taylor polynomial for the sine of `x` nanoradians,
/// `0 <= x <= HALF_PI_N`, clamped into `[0, SCALE]`.
pub open spec fn sin_poly(x: int) -> int {
    let xx = x * x / 1_000_000_000;
    let t1 = x;
    let t2 = t1 * xx / 1_000_000_000 / 6;
    let t3 = t2 * xx / 1_000_000_000 / 20;
    let t4 = t3 * xx / 1_000_000_000 / 42;
    let t5 = t4 * xx / 1_000_000_000 / 72;
    let t6 = t5 * xx / 1_000_000_000 / 110;
    let s = t1 - t2 + t3 - t4 + t5 - t6;
    if s < 0 {
        0
    } else if s > 1_000_000_000 {
        1_000_000_000
    } else {
        s
    }
}

/// Sine on the first quadrant, by the truncated Taylor polynomial.
pub fn sin_q(x: u64) -> (r: u64)
    requires
        x <= HALF_PI_N + 8,
    ensures
        r == sin_poly(x as int),
        r <= SCALE,
        x == 0 ==> r == 0,
{
    if x == 0 {
        proof {
            assert(0int / 1_000_000_000int == 0) by (nonlinear_arith);
            assert(0int / 6 == 0 && 0int / 20 == 0 && 0int / 42 == 0 && 0int / 72 == 0 && 0int
                / 110 == 0) by (nonlinear_arith);
            assert(sin_poly(0) == 0);
        }
        return 0;
    }
    let xi: i128 = x as i128;
    proof {
        assert(xi * xi <= 2_467_401_128_000_000_000i128) by (nonlinear_arith)
            requires
                0 <= xi <= 1_570_796_335i128,
        ;
    }
    let xx: i128 = xi * xi / 1_000_000_000;
    proof {
        assert(0 <= xx <= 2_500_000_000i128);
    }
    let t1: i128 = xi;
    proof {
        assert(t1 * xx <= 4_000_000_000_000_000_000i128 && t1 * xx >= 0) by (nonlinear_arith)
            requires
                0 <= t1 <= 1_600_000_000i128,
                0 <= xx <= 2_500_000_000i128,
        ;
    }
    let t2: i128 = t1 * xx / 1_000_000_000 / 6;
    proof {
        assert(0 <= t2 <= 1_600_000_000i128);
        assert(t2 * xx <= 4_000_000_000_000_000_000i128 && t2 * xx >= 0) by (nonlinear_arith)
            requires
                0 <= t2 <= 1_600_000_000i128,
                0 <= xx <= 2_500_000_000i128,
        ;
    }
    let t3: i128 = t2 * xx / 1_000_000_000 / 20;
    proof {
        assert(0 <= t3 <= 1_600_000_000i128);
        assert(t3 * xx <= 4_000_000_000_000_000_000i128 && t3 * xx >= 0) by (nonlinear_arith)
            requires
                0 <= t3 <= 1_600_000_000i128,
                0 <= xx <= 2_500_000_000i128,
        ;
    }
    let t4: i128 = t3 * xx / 1_000_000_000 / 42;
    proof {
        assert(0 <= t4 <= 1_600_000_000i128);
        assert(t4 * xx <= 4_000_000_000_000_000_000i128 && t4 * xx >= 0) by (nonlinear_arith)
            requires
                0 <= t4 <= 1_600_000_000i128,
                0 <= xx <= 2_500_000_000i128,
        ;
    }
    let t5: i128 = t4 * xx / 1_000_000_000 / 72;
    proof {
        assert(0 <= t5 <= 1_600_000_000i128);
        assert(t5 * xx <= 4_000_000_000_000_000_000i128 && t5 * xx >= 0) by (nonlinear_arith)
            requires
                0 <= t5 <= 1_600_000_000i128,
                0 <= xx <= 2_500_000_000i128,
        ;
    }
    let t6: i128 = t5 * xx / 1_000_000_000 / 110;
    proof {
        assert(0 <= t6 <= 1_600_000_000i128);
    }
    let s: i128 = t1 - t2 + t3 - t4 + t5 - t6;
    let r: u64 = if s < 0 {
        0
    } else if s > 1_000_000_000 {
        SCALE
    } else {
        s as u64
    };
    r
}

/// Sine extended to `[0, PI_N]` by the reflection `sin(x) = sin(pi - x)`;
/// slightly past `PI_N` the value is clamped to zero.
pub open spec fn sin_half_spec(x: int) -> int {
    if x <= HALF_PI_N as int {
        sin_poly(x)
    } else if x >= PI_N as int {
        0
    } else {
        sin_poly(PI_N as int - x)
    }
}

pub fn sin_half(x: u64) -> (r: u64)
    requires
        x <= PI_N + 24,
    ensures
        r == sin_half_spec(x as int),
        r <= SCALE,
        x == 0 ==> r == 0,
{
    if x <= HALF_PI_N {
        sin_q(x)
    } else if x >= PI_N {
        0
    } else {
        sin_q(PI_N - x)
    }
}

/// Haversine `sin(x/2)^2`, scaled by `SCALE`, for `x` in `[0, 2*pi]`.
pub open spec fn hav_spec(x: int) -> int {
    let s = sin_half_spec(x / 2);
    s * s / 1_000_000_000
}

pub fn hav(x: u64) -> (r: u64)
    requires
        x <= TWO_PI_N + 16,
    ensures
        r == hav_spec(x as int),
        r <= SCALE,
        x == 0 ==> r == 0,
{
    let s: u64 = sin_half(x / 2);
    proof {
        if x == 0 {
            assert(0int / 1_000_000_000int == 0) by (nonlinear_arith);
            assert(0int / 2 == 0 && 0int / 6 == 0 && 0int / 20 == 0 && 0int / 42 == 0 && 0int / 72
                == 0 && 0int / 110 == 0) by (nonlinear_arith);
            assert(sin_poly(0) == 0);
            assert(sin_half_spec(0) == 0);
            assert(0int * 0int == 0) by (nonlinear_arith);
            assert(hav_spec(0) == 0);
        }
        assert((s as int) * (s as int) <= 1_000_000_000_000_000_000int && 0 <= (s as int) * (
        s as int)) by (nonlinear_arith)
            requires
                0 <= s <= 1_000_000_000,
        ;
    }
    let r: u128 = (s as u128) * (s as u128) / 1_000_000_000;
    r as u64
}

/// One half of the interval-narrowing recursion behind `archav_spec`.
pub open spec fn archav_rec(lo: int, hi: int, av: int) -> int
    decreases hi - lo,
{
    if lo >= hi {
        lo
    } else {
        let mid = (lo + hi) / 2;
        if hav_spec(mid) < av {
            archav_rec(mid + 1, hi, av)
        } else {
            archav_rec(lo, mid, av)
        }
    }
}

/// Inverse haversine: the angle in `[0, PI_N]` at which the haversine
/// first reaches `av`, found by bisection.
pub open spec fn archav_spec(av: int) -> int {
    if av <= 0 {
        0
    } else {
        archav_rec(0, PI_N as int, av)
    }
}

pub fn archav(av: u64) -> (r: u64)
    requires
        av <= SCALE,
    ensures
        r == archav_spec(av as int),
        r <= PI_N,
        av == 0 ==> r == 0,
{
    if av == 0 {
        return 0;
    }
    let mut lo: u64 = 0;
    let mut hi: u64 = PI_N;
    while lo < hi
        invariant
            lo <= hi <= PI_N,
            av >= 1,
            av <= SCALE,
            archav_rec(lo as int, hi as int, av as int) == archav_spec(av as int),
        decreases hi - lo,
    {
        let mid: u64 = lo + (hi - lo) / 2;
        proof {
            assert(mid as int == (lo as int + hi as int) / 2);
        }
        if hav(mid) < av {
            lo = mid + 1;
        } else {
            hi = mid;
        }
    }
    lo
}

/// One half of the bisection behind `atan_frac_spec`: narrows on the
/// comparison `sin(t) * ax < cos(t) * ay`, i.e. `tan(t) < ay / ax`.
pub open spec fn atan_rec(lo: int, hi: int, ay: int, ax: int) -> int
    decreases hi - lo,
{
    if lo >= hi {
        lo
    } else {
        let mid = (lo + hi) / 2;
        if sin_poly(mid) * ax < sin_poly(HALF_PI_N as int - mid) * ay {
            atan_rec(mid + 1, hi, ay, ax)
        } else {
            atan_rec(lo, mid, ay, ax)
        }
    }
}

/// Arctangent of `ay / ax` in nanoradians, in `[0, HALF_PI_N]`, by bisection.
pub open spec fn atan_frac_spec(ay: int, ax: int) -> int {
    if ax <= 0 {
        HALF_PI_N as int
    } else if ay <= 0 {
        0
    } else {
        atan_rec(0, HALF_PI_N as int, ay, ax)
    }
}

pub fn atan_frac(ay: u64, ax: u64) -> (r: u64)
    requires
        ay <= SCALE,
        ax <= SCALE,
    ensures
        r == atan_frac_spec(ay as int, ax as int),
        r <= HALF_PI_N,
{
    if ax == 0 {
        return HALF_PI_N;
    }
    if ay == 0 {
        return 0;
    }
    let mut lo: u64 = 0;
    let mut hi: u64 = HALF_PI_N;
    while lo < hi
        invariant
            lo <= hi <= HALF_PI_N,
            1 <= ay <= SCALE,
            1 <= ax <= SCALE,
            atan_rec(lo as int, hi as int, ay as int, ax as int) == atan_frac_spec(
                ay as int,
                ax as int,
            ),
        decreases hi - lo,
    {
        let mid: u64 = lo + (hi - lo) / 2;
        proof {
            assert(mid as int == (lo as int + hi as int) / 2);
        }
        let s: u64 = sin_q(mid);
        let c: u64 = sin_q(HALF_PI_N - mid);
        proof {
            assert((s as int) * (ax as int) <= 1_000_000_000_000_000_000int && 0 <= (s as int) * (
            ax as int)) by (nonlinear_arith)
                requires
                    0 <= s <= 1_000_000_000,
                    0 <= ax <= 1_000_000_000,
            ;
            assert((c as int) * (ay as int) <= 1_000_000_000_000_000_000int && 0 <= (c as int) * (
            ay as int)) by (nonlinear_arith)
                requires
                    0 <= c <= 1_000_000_000,
                    0 <= ay <= 1_000_000_000,
            ;
        }
        if (s as u128) * (ax as u128) < (c as u128) * (ay as u128) {
            lo = mid + 1;
        } else {
            hi = mid;
        }
    }
    lo
}

/// One half of the bisection behind `sqrt_floor`.
pub open spec fn sqrt_rec(lo: int, hi: int, n: int) -> int
    decreases hi - lo,
{
    if lo >= hi {
        lo
    } else {
        let mid = lo + (hi - lo + 1) / 2;
        if mid * mid <= n {
            sqrt_rec(mid, hi, n)
        } else {
            sqrt_rec(lo, mid - 1, n)
        }
    }
}

/// Integer square root by bisection: the greatest 64-bit value whose
/// square does not exceed `n`.
pub open spec fn sqrt_floor(n: int) -> int {
    if n <= 0 {
        0
    } else {
        sqrt_rec(
            0,
            if n > 18446744073709551615 {
                18446744073709551615
            } else {
                n
            },
            n,
        )
    }
}

/// Integer square root: the greatest `r` with `r * r <= n`.
pub fn isqrt(n: u128) -> (r: u128)
    ensures
        r == sqrt_floor(n as int),
        r * r <= n,
        n < (r + 1) * (r + 1),
        r <= n,
{
    if n == 0 {
        return 0;
    }
    let cap: u128 = u64::MAX as u128;
    let mut lo: u128 = 0;
    let mut hi: u128 = if n > cap {
        cap
    } else {
        n
    };
    proof {
        assert(n < (hi + 1) * (hi + 1)) by (nonlinear_arith)
            requires
                hi == (if n > 18446744073709551615u128 {
                    18446744073709551615u128
                } else {
                    n
                }),
                n >= 1,
        ;
    }
    while lo < hi
        invariant
            lo <= hi <= n,
            hi <= 18446744073709551615u128,
            lo * lo <= n,
            n < (hi + 1) * (hi + 1),
            sqrt_rec(lo as int, hi as int, n as int) == sqrt_floor(n as int),
        decreases hi - lo,
    {
        let mid: u128 = lo + (hi - lo + 1) / 2;
        proof {
            assert(lo < mid <= hi);
            assert(mid as int == lo as int + (hi as int - lo as int + 1) / 2);
            assert(mid * mid <= 340282366920938463426481119284349108225u128) by (nonlinear_arith)
                requires
                    mid <= 18446744073709551615u128,
            ;
        }
        if mid * mid <= n {
            lo = mid;
        } else {
            hi = mid - 1;
        }
    }
    lo
}

} // verus!
