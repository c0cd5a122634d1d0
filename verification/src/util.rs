//! Period and rounding helpers.

use vstd::prelude::*;

verus! {

/// Number of microseconds in one second.
pub const MICROS_PER_SEC: u64 = 1_000_000u64;

/// Number of milliseconds in one second.
pub const MILLIS_PER_SEC: u64 = 1_000u64;

/// `max(1, per_sec / hz)`: a period in the unit of `per_sec`, floored by the
/// integer division and never below one unit.
pub open spec fn spec_period(per_sec: int, hz: int) -> int {
    if per_sec / hz >= 1 {
        per_sec / hz
    } else {
        1
    }
}

/// Integer division rounded to the nearest integer, ties away from zero.
///
/// For `d > 0` this is `sign(n) * floor((|n| + floor(d / 2)) / d)`.
pub open spec fn round_half_away(n: int, d: int) -> int {
    if n >= 0 {
        (n + d / 2) / d
    } else {
        -((-n + d / 2) / d)
    }
}

/// The rounded quotient is a nearest integer to `n / d`: the remainder it
/// leaves is at most half the divisor in magnitude.
pub proof fn lemma_round_half_away_is_nearest(n: int, d: int)
    requires
        d > 0,
    ensures
        -d <= 2 * (n - d * round_half_away(n, d)) <= d,
        n >= 0 ==> round_half_away(n, d) >= 0,
        n <= 0 ==> round_half_away(n, d) <= 0,
{
    let h = d / 2;
    if n >= 0 {
        let q = (n + h) / d;
        let r = (n + h) % d;
        assert(n + h == d * q + r) by (nonlinear_arith)
            requires
                d > 0,
                q == (n + h) / d,
                r == (n + h) % d,
        ;
        assert(0 <= r < d);
        if n == 0 {
            assert(q == 0) by (nonlinear_arith)
                requires
                    d > 0,
                    0 <= h < d,
                    q == (0 + h) / d,
            ;
        }
        assert(q >= 0) by (nonlinear_arith)
            requires
                d > 0,
                n + h >= 0,
                q == (n + h) / d,
        ;
    } else {
        let m = -n;
        let q = (m + h) / d;
        let r = (m + h) % d;
        assert(m + h == d * q + r) by (nonlinear_arith)
            requires
                d > 0,
                q == (m + h) / d,
                r == (m + h) % d,
        ;
        assert(0 <= r < d);
        assert(q >= 0) by (nonlinear_arith)
            requires
                d > 0,
                m + h >= 0,
                q == (m + h) / d,
        ;
        assert(n - d * (-q) == -(m - d * q)) by (nonlinear_arith)
            requires
                m == -n,
        ;
    }
}

/// Ties round away from zero: a quotient exactly halfway between two
/// integers goes to the one of larger magnitude.
pub proof fn lemma_round_half_away_ties(k: int, d: int)
    requires
        d > 0,
        d % 2 == 0,
        k >= 0,
    ensures
        round_half_away(d * k + d / 2, d) == k + 1,
        round_half_away(-(d * k + d / 2), d) == -(k + 1),
{
    let h = d / 2;
    assert(d * k + h + h == d * (k + 1)) by (nonlinear_arith)
        requires
            h + h == d,
    ;
    assert((d * (k + 1)) / d == k + 1) by (nonlinear_arith)
        requires
            d > 0,
    ;
    assert(d * k + h >= 0) by (nonlinear_arith)
        requires
            d > 0,
            k >= 0,
            h >= 0,
    ;
}

/// The rounded quotient never exceeds the numerator in magnitude.
pub proof fn lemma_round_half_away_bounded(n: int, d: int)
    requires
        d > 0,
    ensures
        n >= 0 ==> 0 <= round_half_away(n, d) <= n,
        n < 0 ==> n <= round_half_away(n, d) <= 0,
{
    let h = d / 2;
    let m = if n >= 0 {
        n
    } else {
        -n
    };
    assert(m >= 0);
    let q = (m + h) / d;
    assert(0 <= q <= m) by (nonlinear_arith)
        requires
            d > 0,
            m >= 0,
            h == d / 2,
            q == (m + h) / d,
    {
        if m == 0 {
            assert(h < d);
        } else {
            assert(m + h <= d * m) by (nonlinear_arith)
                requires
                    d > 0,
                    m >= 1,
                    h == d / 2,
            ;
        }
    }
}

/// Period in microseconds for a sampling rate in Hz, floored by the integer
/// division and never below 1 us. A rate of 0 Hz has no period: callers
/// validate `hz > 0` first.
pub fn period_us(hz: u32) -> (p: u64)
    requires
        hz > 0,
    ensures
        p == spec_period(MICROS_PER_SEC as int, hz as int),
        p >= 1,
{
    let q = MICROS_PER_SEC / (hz as u64);
    if q >= 1 {
        q
    } else {
        1
    }
}

/// Period in milliseconds for a sampling rate in Hz, floored by the integer
/// division and never below 1 ms (rates of 1000 Hz and more all map to 1 ms;
/// use [`period_us`] for finer scheduling). Callers validate `hz > 0` first.
pub fn period_ms(hz: u32) -> (p: u64)
    requires
        hz > 0,
    ensures
        p == spec_period(MILLIS_PER_SEC as int, hz as int),
        p >= 1,
{
    let q = MILLIS_PER_SEC / (hz as u64);
    if q >= 1 {
        q
    } else {
        1
    }
}

/// Integer division of `numer` by a positive `denom`, rounded to nearest with
/// ties away from zero (`5 / 2 -> 3`, `-5 / 2 -> -3`). Uses 64-bit
/// intermediates, so no `i32` numerator can overflow it.
pub fn div_round_nearest_i32(numer: i32, denom: i32) -> (q: i32)
    requires
        denom > 0,
    ensures
        q == round_half_away(numer as int, denom as int),
{
    let n = numer as i64;
    let d = denom as i64;
    proof {
        lemma_round_half_away_bounded(n as int, d as int);
    }
    let q = if n >= 0 {
        (n + (d / 2)) / d
    } else {
        -((-n + (d / 2)) / d)
    };
    q as i32
}

} // verus!
