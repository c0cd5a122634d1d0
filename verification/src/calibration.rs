//! Checks on the rows of a calibration table before a line is fitted to them.

use vstd::prelude::*;

use crate::fixed_point::GAIN_SCALE;
use crate::util::{lemma_round_half_away_is_nearest, round_half_away};

verus! {

/// Why the raw readings of a calibration table cannot be fitted.
#[derive(Debug, Clone, Copy, PartialEq, Eq, Structural)]
pub enum RowsError {
    /// Fewer than two rows; holds the row count.
    TooFewRows(usize),
    /// More rows than a calibration table may have; holds the row count.
    TooManyRows(usize),
    /// Rows `0` and `1` (adjacent indices) have the same raw value.
    DuplicateRaw(usize, usize),
    /// The raw values change direction.
    NotMonotonic,
}

/// The most rows a calibration table may have.
pub const MAX_CALIBRATION_ROWS: usize = 100_000;

/// Direction of a step between adjacent raw values.
pub open spec fn step_dir(a: i64, b: i64) -> int {
    if b > a {
        1
    } else {
        -1
    }
}

/// The first index `i >= 1` at which two adjacent raw values are equal or the
/// direction differs from that of the first step, checked left to right; the
/// verdict of the first such index.
pub open spec fn rows_verdict_from(raw: Seq<i64>, i: int, dir: int) -> Result<(), RowsError>
    decreases raw.len() - i,
{
    if i >= raw.len() || i < 1 {
        Ok(())
    } else if raw[i] == raw[i - 1] {
        Err(RowsError::DuplicateRaw((i - 1) as usize, i as usize))
    } else if dir != 0 && dir != step_dir(raw[i - 1], raw[i]) {
        Err(RowsError::NotMonotonic)
    } else {
        rows_verdict_from(raw, i + 1, step_dir(raw[i - 1], raw[i]))
    }
}

/// The verdict on the raw column of a calibration table.
pub open spec fn spec_check_rows(raw: Seq<i64>) -> Result<(), RowsError> {
    if raw.len() < 2 {
        Err(RowsError::TooFewRows(raw.len() as usize))
    } else if raw.len() > MAX_CALIBRATION_ROWS {
        Err(RowsError::TooManyRows(raw.len() as usize))
    } else {
        rows_verdict_from(raw, 1, 0)
    }
}

/// Strictly increasing or strictly decreasing.
pub open spec fn strictly_monotonic(raw: Seq<i64>) -> bool {
    (forall|i: int, j: int| 0 <= i < j < raw.len() ==> raw[i] < raw[j]) || (forall|i: int, j: int|
        0 <= i < j < raw.len() ==> raw[i] > raw[j])
}

/// Check the raw column of a calibration table: at least two rows and at
/// most [`MAX_CALIBRATION_ROWS`], and the raw values strictly increasing or
/// strictly decreasing. Reports the first problem found scanning left to
/// right.
pub fn check_rows(raw: &Vec<i64>) -> (r: Result<(), RowsError>)
    ensures
        r == spec_check_rows(raw@),
{
    let n = raw.len();
    if n < 2 {
        return Err(RowsError::TooFewRows(n));
    }
    if n > MAX_CALIBRATION_ROWS {
        return Err(RowsError::TooManyRows(n));
    }
    let mut dir: i8 = 0;
    let mut i: usize = 1;
    while i < n
        invariant
            n == raw@.len(),
            1 <= i <= n,
            -1 <= dir <= 1,
            spec_check_rows(raw@) == rows_verdict_from(raw@, i as int, dir as int),
        decreases n - i,
    {
        if raw[i] == raw[i - 1] {
            return Err(RowsError::DuplicateRaw(i - 1, i));
        }
        let step: i8 = if raw[i] > raw[i - 1] {
            1
        } else {
            -1
        };
        if dir != 0 && dir != step {
            return Err(RowsError::NotMonotonic);
        }
        dir = step;
        i = i + 1;
    }
    Ok(())
}

/// The step from `raw[k]` to `raw[k + 1]` is strict and goes in direction `dir`.
pub open spec fn good_step(raw: Seq<i64>, k: int, dir: int) -> bool {
    raw[k] != raw[k + 1] && step_dir(raw[k], raw[k + 1]) == dir
}

/// Helper: the scan from `i` accepts only a run of steps in direction `dir`.
proof fn lemma_verdict_ok_monotone(raw: Seq<i64>, i: int, dir: int)
    requires
        1 <= i,
        dir == 1 || dir == -1,
        i >= 2 ==> dir == step_dir(raw[i - 2], raw[i - 1]),
        i >= 2 ==> raw[i - 2] != raw[i - 1],
        rows_verdict_from(raw, i, dir) is Ok,
    ensures
        forall|k: int| i - 1 <= k < raw.len() - 1 ==> #[trigger] good_step(raw, k, dir),
    decreases raw.len() - i,
{
    if i < raw.len() {
        lemma_verdict_ok_monotone(raw, i + 1, dir);
    }
}

/// Accepted rows are strictly monotonic, and there are at least two and at
/// most [`MAX_CALIBRATION_ROWS`] of them.
pub proof fn law_accepted_rows_are_strictly_monotonic(raw: Seq<i64>)
    requires
        spec_check_rows(raw) is Ok,
    ensures
        2 <= raw.len() <= MAX_CALIBRATION_ROWS,
        strictly_monotonic(raw),
{
    assert(raw[1] != raw[0]);
    let dir = step_dir(raw[0], raw[1]);
    assert(rows_verdict_from(raw, 1, 0) == rows_verdict_from(raw, 2, dir));
    lemma_verdict_ok_monotone(raw, 2, dir);
    assert forall|k: int| 0 <= k < raw.len() - 1 implies #[trigger] good_step(raw, k, dir) by {
        if k > 0 {
        }
    }
    if dir == 1 {
        assert forall|i: int, j: int| 0 <= i < j < raw.len() implies raw[i] < raw[j] by {
            lemma_chain(raw, i, j, 1);
        }
    } else {
        assert forall|i: int, j: int| 0 <= i < j < raw.len() implies raw[i] > raw[j] by {
            lemma_chain(raw, i, j, -1);
        }
    }
}

proof fn lemma_chain(raw: Seq<i64>, i: int, j: int, dir: int)
    requires
        0 <= i < j < raw.len(),
        dir == 1 || dir == -1,
        forall|k: int| 0 <= k < raw.len() - 1 ==> #[trigger] good_step(raw, k, dir),
    ensures
        dir == 1 ==> raw[i] < raw[j],
        dir == -1 ==> raw[i] > raw[j],
    decreases j - i,
{
    assert(good_step(raw, i, dir));
    if j > i + 1 {
        lemma_chain(raw, i + 1, j, dir);
    }
}

/// Raw counts to centigrams under a linear calibration:
/// `gain * (raw - zero_counts) + offset_cg`, where the gain is given in
/// centigrams per count scaled by `GAIN_SCALE` (so gains far below one
/// centigram per count keep their precision), the product rounded to the
/// nearest centigram (ties away from zero) and the result clamped to the
/// `i32` range.
pub open spec fn spec_raw_to_cg(gain_scaled_cg_per_count: int, zero_counts: int, offset_cg: int, raw: int) -> int {
    crate::fixed_point::spec_cg_from_delta_scaled(raw - zero_counts, gain_scaled_cg_per_count, offset_cg)
}

/// Raw counts to centigrams with a calibration (see [`spec_raw_to_cg`]).
pub fn raw_to_cg(gain_scaled_cg_per_count: i64, zero_counts: i32, offset_cg: i32, raw: i32) -> (cg: i32)
    ensures
        cg == spec_raw_to_cg(gain_scaled_cg_per_count as int, zero_counts as int, offset_cg as int, raw as int),
{
    let delta = (raw as i64) - (zero_counts as i64);
    crate::fixed_point::cg_from_delta_scaled(delta, gain_scaled_cg_per_count, offset_cg)
}

/// The calibrated reading is the true value `delta * gain` rounded to the
/// nearest centigram (plus the offset) whenever it fits in an `i32`; in
/// particular a positive gain, however far below one centigram per count,
/// reads a positive weight (with no offset) once the true value reaches
/// half a centigram.
pub proof fn law_calibration_rounds_to_nearest(
    gain_scaled_cg_per_count: int,
    zero_counts: int,
    offset_cg: int,
    raw: int,
)
    ensures
        ({
            let delta = raw - zero_counts;
            let exact = delta * gain_scaled_cg_per_count;
            let cg = spec_raw_to_cg(gain_scaled_cg_per_count, zero_counts, offset_cg, raw);
            let q = round_half_away(exact, GAIN_SCALE as int);
            &&& (i32::MIN <= q + offset_cg <= i32::MAX) ==> -GAIN_SCALE <= 2 * (exact - GAIN_SCALE * (cg
                - offset_cg)) <= GAIN_SCALE
            &&& (offset_cg == 0 && 2 * exact >= GAIN_SCALE) ==> cg >= 1
        }),
{
    let delta = raw - zero_counts;
    let exact = delta * gain_scaled_cg_per_count;
    let d = GAIN_SCALE as int;
    lemma_round_half_away_is_nearest(exact, d);
    if 2 * exact >= d {
        let q = (exact + d / 2) / d;
        assert(q >= 1) by (nonlinear_arith)
            requires
                d == 1_000_000,
                2 * exact >= d,
                q == (exact + d / 2) / d,
        ;
    }
}

} // verus!
