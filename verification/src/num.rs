//! Fixed-point numeric foundation: the unit convention, range limits,
//! clamping, truncating division and an integer square root.
//!
//! All simulation quantities are integers:
//! - positions and dimensions are in subunits (`SCALE` subunits per world unit);
//! - time is in ticks;
//! - velocities and gravity are fixed-point with denominator `VEL_SCALE`
//!   (a stored velocity `v` means `v / VEL_SCALE` subunits per tick);
//! - a moving obstacle's progress along its path is fixed-point with
//!   denominator `DIST_SCALE` (its stored speed is in `DIST_SCALE`-ths of a
//!   subunit per tick, so progress advances by exactly `speed * dt`).
use vstd::prelude::*;

verus! {

/// Subunits per world unit for positions and dimensions.
pub const SCALE: i64 = 1000;

/// Fixed-point denominator for velocities and gravity.
pub const VEL_SCALE: i64 = 1000000;

/// Fixed-point denominator for a moving obstacle's path progress.
pub const DIST_SCALE: i64 = 1000;

/// Largest magnitude of an obstacle coordinate, a dimension, the map's
/// lowest point, or the collision depth threshold.
pub const WORLD_LIMIT: i64 = 1000000000;

/// Largest magnitude of a player center coordinate; position updates
/// saturate here so that arbitrarily large frame times keep positions
/// representable.
pub const POS_LIMIT: i64 = 10000000000;

/// Largest magnitude of a player velocity component; velocity updates
/// saturate here.
pub const VEL_LIMIT: i64 = 10000000000;

/// Largest frame time, in ticks, accepted by one simulation step.
pub const DT_LIMIT: i64 = 1000000000;

/// Largest gravity magnitude (in `VEL_SCALE`-ths of a subunit per tick squared).
pub const GRAV_LIMIT: i64 = 1000000000;

/// Largest player walking or running speed (in `VEL_SCALE`-ths of a subunit per tick).
pub const SPEED_LIMIT: i64 = 1000000000;

/// Largest moving-obstacle speed (in `DIST_SCALE`-ths of a subunit per tick).
pub const PLATFORM_SPEED_LIMIT: i64 = 1000000;

/// Largest jump-buffer duration, in ticks.
pub const BUFFER_LIMIT: i64 = 1000000000;

/// `v` clamped into the closed interval `[-lim, lim]`.
pub open spec fn clamp_spec(v: int, lim: int) -> int {
    if v < -lim {
        -lim
    } else if v > lim {
        lim
    } else {
        v
    }
}

/// Division truncating toward zero (the result of Rust's `/` on integers),
/// defined for positive divisors.
pub open spec fn div_trunc(a: int, b: int) -> int
    recommends
        b > 0,
{
    if a >= 0 {
        a / b
    } else {
        -((-a) / b)
    }
}

/// `r` is the integer square root of `n`.
pub open spec fn is_isqrt(n: int, r: int) -> bool {
    &&& 0 <= r
    &&& r * r <= n
    &&& n < (r + 1) * (r + 1)
}

/// Executable clamp of an `i64` into `[-lim, lim]`.
pub fn clamp_i64(v: i64, lim: i64) -> (r: i64)
    requires
        0 <= lim,
    ensures
        r == clamp_spec(v as int, lim as int),
{
    if v < -lim {
        -lim
    } else if v > lim {
        lim
    } else {
        v
    }
}

/// Executable truncating division of an `i128` by a positive divisor.
pub fn div_trunc_i128(a: i128, b: i128) -> (r: i128)
    requires
        b > 0,
        a > i128::MIN,
    ensures
        r == div_trunc(a as int, b as int),
        a >= 0 ==> 0 <= r <= a,
        a < 0 ==> a <= r <= 0,
{
    if a >= 0 {
        proof {
            vstd::arithmetic::div_mod::lemma_div_is_ordered_by_denominator(a as int, 1, b as int);
            vstd::arithmetic::div_mod::lemma_div_pos_is_pos(a as int, b as int);
        }
        a / b
    } else {
        proof {
            vstd::arithmetic::div_mod::lemma_div_is_ordered_by_denominator(
                (-a) as int,
                1,
                b as int,
            );
            vstd::arithmetic::div_mod::lemma_div_pos_is_pos((-a) as int, b as int);
        }
        -((-a) / b)
    }
}

/// `(a * b) / c` for nonnegative `a`, `b` and positive `c`, computed without
/// intermediate overflow.
pub fn mul_div_nonneg(a: i64, b: i64, c: i64) -> (r: i64)
    requires
        0 <= a,
        0 <= b,
        0 < c,
        a as int * b as int / c as int <= i64::MAX,
    ensures
        r == a as int * b as int / c as int,
        0 <= r,
{
    proof {
        vstd::arithmetic::mul::lemma_mul_nonnegative(a as int, b as int);
        vstd::arithmetic::mul::lemma_mul_upper_bound(
            a as int,
            i64::MAX as int,
            b as int,
            i64::MAX as int,
        );
        vstd::arithmetic::div_mod::lemma_div_pos_is_pos(a as int * b as int, c as int);
    }
    let prod: i128 = (a as i128) * (b as i128);
    (prod / (c as i128)) as i64
}

/// Quotients with a common positive divisor respect the order of dividends.
pub proof fn lemma_div_ordered(a: int, b: int, c: int)
    requires
        a <= b,
        0 < c,
    ensures
        a / c <= b / c,
{
    vstd::arithmetic::div_mod::lemma_div_is_ordered(a, b, c);
}

/// Integer square root by binary search.
pub fn isqrt_u64(n: u64) -> (r: u64)
    requires
        n < 0x8000000000000000,
    ensures
        is_isqrt(n as int, r as int),
{
    let mut lo: u64 = 0;
    let mut hi: u64 = 3037000499;
    proof {
        assert((3037000499int + 1) * (3037000499int + 1) > 0x8000000000000000int)
            by (nonlinear_arith);
    }
    while lo < hi
        invariant
            lo <= hi,
            hi <= 3037000499,
            lo * lo <= n,
            n < (hi + 1) * (hi + 1),
        decreases hi - lo,
    {
        let mid: u64 = lo + (hi - lo + 1) / 2;
        proof {
            assert(lo < mid <= hi);
            assert(mid * mid <= 3037000499u64 * 3037000499u64) by (nonlinear_arith)
                requires
                    0 <= mid <= 3037000499u64,
            ;
        }
        let sq: u64 = mid * mid;
        if sq <= n {
            lo = mid;
        } else {
            hi = mid - 1;
            proof {
                assert(n < (hi + 1) * (hi + 1));
            }
        }
    }
    lo
}

/// The integer square root is unique.
pub proof fn lemma_isqrt_unique(n: int, r1: int, r2: int)
    requires
        is_isqrt(n, r1),
        is_isqrt(n, r2),
    ensures
        r1 == r2,
{
    if r1 < r2 {
        assert((r1 + 1) * (r1 + 1) <= r2 * r2) by (nonlinear_arith)
            requires
                0 <= r1,
                0 <= r2,
                r1 < r2,
        ;
    }
    if r2 < r1 {
        assert((r2 + 1) * (r2 + 1) <= r1 * r1) by (nonlinear_arith)
            requires
                0 <= r1,
                0 <= r2,
                r2 < r1,
        ;
    }
}

} // verus!
