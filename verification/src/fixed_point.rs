//! Fixed-point centigram arithmetic.
//!
//! Working in centigrams (`i32`, 1 cg = 0.01 g) keeps the control loop free of
//! per-sample floating point and keeps every threshold in a single unit.

use vstd::prelude::*;

use crate::util::{lemma_round_half_away_bounded, round_half_away};

verus! {

/// Fixed-point scale applied to a calibration gain (centigrams per count)
/// before it is stored as an integer: the stored gain is
/// `cg-per-count * GAIN_SCALE`, which keeps six extra decimal digits so that
/// realistic sub-centigram-per-count gains do not quantize to zero.
pub const GAIN_SCALE: i64 = 1_000_000i64;

/// Clamp an integer into the `i32` range.
pub open spec fn saturate_i32(x: int) -> int {
    if x > i32::MAX {
        i32::MAX as int
    } else if x < i32::MIN {
        i32::MIN as int
    } else {
        x
    }
}

/// `|a - b|` as an integer.
pub open spec fn abs_diff(a: int, b: int) -> int {
    if a >= b {
        a - b
    } else {
        b - a
    }
}

/// Centigrams for a raw-count delta, a scaled gain and an integer offset:
/// `round_half_away(delta * gain / GAIN_SCALE) + offset`, clamped to `i32`.
pub open spec fn spec_cg_from_delta_scaled(delta: int, gain_scaled: int, offset_cg: int) -> int {
    saturate_i32(round_half_away(delta * gain_scaled, GAIN_SCALE as int) + offset_cg)
}

/// Average of two `i32` values rounded to nearest, ties away from zero.
/// The exact sum is formed in 64 bits, so no pair of inputs can overflow.
pub fn avg2_round_nearest_i32(a: i32, b: i32) -> (r: i32)
    ensures
        r == round_half_away(a + b, 2),
{
    let s = (a as i64) + (b as i64);
    proof {
        lemma_avg2_in_range(a as int, b as int);
    }
    let q = if s >= 0 {
        (s + 1) / 2
    } else {
        -((-s + 1) / 2)
    };
    q as i32
}

/// The rounded average of two `i32` values is again an `i32`.
proof fn lemma_avg2_in_range(a: int, b: int)
    requires
        i32::MIN <= a <= i32::MAX,
        i32::MIN <= b <= i32::MAX,
    ensures
        i32::MIN <= round_half_away(a + b, 2) <= i32::MAX,
{
    let s = a + b;
    if s >= 0 {
        assert((s + 1) / 2 <= i32::MAX);
    } else {
        assert((-s + 1) / 2 <= 0x8000_0000);
    }
}

/// Absolute difference of two `i32` values as a `u32`; exact for every pair,
/// since `|a - b| <= u32::MAX`.
pub fn abs_diff_i32_u32(a: i32, b: i32) -> (r: u32)
    ensures
        r == abs_diff(a as int, b as int),
{
    if a >= b {
        ((a as i64) - (b as i64)) as u32
    } else {
        ((b as i64) - (a as i64)) as u32
    }
}

/// Convert a raw-count delta to centigrams with a scaled gain (see
/// [`GAIN_SCALE`]) and an integer offset, rounding to nearest with ties away
/// from zero and saturating to the `i32` range. The product is formed in 128
/// bits, so no `i64` delta and gain can overflow it.
pub fn cg_from_delta_scaled(delta_counts: i64, gain_scaled_cg_per_count: i64, offset_cg: i32) -> (r: i32)
    ensures
        r == spec_cg_from_delta_scaled(
            delta_counts as int,
            gain_scaled_cg_per_count as int,
            offset_cg as int,
        ),
{
    let a = delta_counts as i128;
    let b = gain_scaled_cg_per_count as i128;
    proof {
        lemma_i64_product_fits(a as int, b as int);
    }
    let num = a * b;
    let den = GAIN_SCALE as i128;
    let half = den / 2;
    proof {
        lemma_round_half_away_bounded(num as int, den as int);
    }
    let q = if num >= 0 {
        (num + half) / den
    } else {
        -((-num + half) / den)
    };
    let cg = q + (offset_cg as i128);
    if cg > (i32::MAX as i128) {
        i32::MAX
    } else if cg < (i32::MIN as i128) {
        i32::MIN
    } else {
        cg as i32
    }
}

/// The product of two `i64` values stays well inside the `i128` range.
proof fn lemma_i64_product_fits(a: int, b: int)
    requires
        i64::MIN <= a <= i64::MAX,
        i64::MIN <= b <= i64::MAX,
    ensures
        -0x4000_0000_0000_0000_0000_0000_0000_0000 <= a * b <= 0x4000_0000_0000_0000_0000_0000_0000_0000,
{
    let m: int = 0x8000_0000_0000_0000;
    assert(-m <= a <= m);
    assert(-m <= b <= m);
    assert(-(m * m) <= a * b <= m * m) by (nonlinear_arith)
        requires
            -m <= a <= m,
            -m <= b <= m,
            m > 0,
    ;
    assert(m * m == 0x4000_0000_0000_0000_0000_0000_0000_0000) by (nonlinear_arith)
        requires
            m == 0x8000_0000_0000_0000,
    ;
}

/// The rounded average is symmetric and lies between its two arguments.
pub proof fn law_avg2_symmetric_and_between(a: i32, b: i32)
    ensures
        round_half_away(a + b, 2) == round_half_away(b + a, 2),
        (if a <= b {
            a
        } else {
            b
        }) <= round_half_away(a + b, 2) <= (if a <= b {
            b
        } else {
            a
        }),
{
}

/// The absolute difference is symmetric and zero exactly on equal arguments.
pub proof fn law_abs_diff_symmetric(a: i32, b: i32)
    ensures
        abs_diff(a as int, b as int) == abs_diff(b as int, a as int),
        abs_diff(a as int, b as int) == 0 <==> a == b,
        abs_diff(a as int, b as int) <= u32::MAX,
{
}

} // verus!
