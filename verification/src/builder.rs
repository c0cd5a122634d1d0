//! Validation of a dose configuration and construction of its controller.
//!
//! Quantities that the configuration gives in grams arrive here already
//! converted to centigrams, together with the facts about the configured
//! floating-point value that validation reads (its sign bit, whether it is
//! finite, whether it lies in range).

use vstd::prelude::*;

use crate::control::{band_speed, spec_begin, spec_select_speed, speed_positive, CoreParams, DoserCore};
use crate::error::BuildError;
use crate::util::{period_us, spec_period, MICROS_PER_SEC};

verus! {

/// Type-state marker: a required part of a doser has not been given yet.
pub struct Missing;

/// Type-state marker: a required part of a doser has been given.
pub struct Present;

/// The check for the required parts of a doser, in order: the scale, the
/// motor, the target.
pub fn required_parts(has_scale: bool, has_motor: bool, has_target: bool) -> (r: Result<(), BuildError>)
    ensures
        r == (if !has_scale {
            Err::<(), BuildError>(BuildError::MissingScale)
        } else if !has_motor {
            Err::<(), BuildError>(BuildError::MissingMotor)
        } else if !has_target {
            Err::<(), BuildError>(BuildError::MissingTarget)
        } else {
            Ok::<(), BuildError>(())
        }),
{
    if !has_scale {
        Err(BuildError::MissingScale)
    } else if !has_motor {
        Err(BuildError::MissingMotor)
    } else if !has_target {
        Err(BuildError::MissingTarget)
    } else {
        Ok(())
    }
}

/// A setting given in grams: its value in centigrams, and whether the
/// configured value has its sign bit set (negative, or `-0.0`).
#[derive(Debug, Clone, Copy)]
pub struct GramsSetting {
    pub cg: i32,
    pub sign_negative: bool,
}

/// One entry of the speed table: a threshold given in grams (in centigrams,
/// plus whether the configured value is finite and whether it is below zero)
/// and the step rate to use at or above it.
#[derive(Debug, Clone, Copy)]
pub struct BandSetting {
    pub threshold_cg: i32,
    pub threshold_finite: bool,
    pub threshold_below_zero: bool,
    pub sps: u32,
}

/// Everything a controller is built from.
#[derive(Debug, Clone)]
pub struct BuildConfig {
    pub target_cg: i32,
    /// Whether the target lies in `0.1 ..= 5000.0` g.
    pub target_in_range: bool,
    pub hysteresis: GramsSetting,
    pub slow_at: GramsSetting,
    pub epsilon_cg: i32,
    pub coarse_speed: u32,
    pub fine_speed: u32,
    pub stable_ms: u64,
    pub speed_bands: Vec<BandSetting>,
    pub max_run_ms: u64,
    pub max_overshoot: GramsSetting,
    pub no_progress_epsilon: GramsSetting,
    pub no_progress_ms: u64,
    pub sensor_ms: u64,
    pub sample_rate_hz: u32,
    pub median_window: usize,
    pub ma_window: usize,
    pub ema_enabled: bool,
    pub predictor_enabled: bool,
    pub predictor_window: usize,
    pub extra_latency_ms: u64,
    pub zero_counts: i32,
    pub cal_gain_scaled: i64,
    pub cal_offset_cg: i32,
    pub estop_debounce_n: u8,
}

/// The first message whose condition holds, in order.
pub open spec fn first_violation(checks: Seq<(bool, &'static str)>) -> Option<&'static str>
    decreases checks.len(),
{
    if checks.len() == 0 {
        None
    } else if checks[0].0 {
        Some(checks[0].1)
    } else {
        first_violation(checks.drop_first())
    }
}

/// The checks of one speed band, in order.
pub open spec fn band_checks(b: BandSetting) -> Seq<(bool, &'static str)> {
    seq![
        (!b.threshold_finite, "speed band threshold must be finite"),
        (b.threshold_below_zero, "speed band threshold must be >= 0"),
        (b.sps == 0, "speed band speed must be > 0"),
    ]
}

/// The checks of the speed table, band by band.
pub open spec fn bands_checks(bands: Seq<BandSetting>) -> Seq<(bool, &'static str)>
    decreases bands.len(),
{
    if bands.len() == 0 {
        Seq::empty()
    } else {
        band_checks(bands[0]) + bands_checks(bands.drop_first())
    }
}

/// Every check of a build configuration, in the order they are made.
pub open spec fn build_checks(c: BuildConfig) -> Seq<(bool, &'static str)> {
    seq![
        (!c.target_in_range, "target grams out of range"),
        (c.hysteresis.sign_negative, "hysteresis_g must be >= 0"),
        (c.slow_at.sign_negative, "slow_at_g must be >= 0"),
        (c.coarse_speed == 0 || c.fine_speed == 0, "motor speeds must be > 0"),
        (c.sensor_ms == 0, "sensor_ms must be >= 1"),
        (c.max_overshoot.sign_negative, "max_overshoot_g must be >= 0"),
        (c.no_progress_epsilon.sign_negative, "no_progress_epsilon_g must be >= 0"),
        (c.sample_rate_hz == 0, "sample_rate_hz must be > 0"),
    ] + bands_checks(c.speed_bands@)
}

/// The band entries as `(threshold_cg, sps)` pairs.
pub open spec fn band_pairs(bands: Seq<BandSetting>) -> Seq<(i32, u32)> {
    bands.map_values(|b: BandSetting| (b.threshold_cg, b.sps))
}

/// Insert a band into a table sorted by descending threshold, after every
/// band whose threshold is at least as high (so equal thresholds keep their
/// order).
pub open spec fn insert_desc(t: Seq<(i32, u32)>, x: (i32, u32)) -> Seq<(i32, u32)>
    decreases t.len(),
{
    if t.len() == 0 {
        seq![x]
    } else if t.last().0 >= x.0 {
        t.push(x)
    } else {
        insert_desc(t.drop_last(), x).push(t.last())
    }
}

/// The stable sort of a speed table by descending threshold.
pub open spec fn sort_bands_desc(s: Seq<(i32, u32)>) -> Seq<(i32, u32)>
    decreases s.len(),
{
    if s.len() == 0 {
        s
    } else {
        insert_desc(sort_bands_desc(s.drop_last()), s.last())
    }
}

/// A speed table whose thresholds never increase.
pub open spec fn bands_descending(t: Seq<(i32, u32)>) -> bool {
    forall|i: int, j: int| 0 <= i < j < t.len() ==> t[i].0 >= t[j].0
}

/// `ceil(a / b)` for `b > 0`.
pub open spec fn div_ceil(a: int, b: int) -> int {
    (a + b - 1) / b
}

/// The pipeline latency the predictor assumes: one sampling period rounded
/// up to whole milliseconds, plus the configured extra latency (saturating).
pub open spec fn spec_pred_latency(c: BuildConfig) -> int {
    let p_ms = div_ceil(spec_period(MICROS_PER_SEC as int, c.sample_rate_hz as int), 1000);
    if p_ms + c.extra_latency_ms > u64::MAX {
        u64::MAX as int
    } else {
        p_ms + c.extra_latency_ms
    }
}

/// The controller parameters `p` are those of the valid configuration `c`.
pub open spec fn built_from(p: CoreParams, c: BuildConfig) -> bool {
    &&& p.target_cg == c.target_cg
    &&& p.epsilon_cg == c.epsilon_cg
    &&& p.hysteresis_cg == c.hysteresis.cg
    &&& p.max_overshoot_cg == c.max_overshoot.cg
    &&& p.no_progress_epsilon_cg == c.no_progress_epsilon.cg
    &&& p.slow_at_cg == c.slow_at.cg
    &&& p.speed_bands_cg@ == sort_bands_desc(band_pairs(c.speed_bands@))
    &&& p.coarse_speed == c.coarse_speed
    &&& p.fine_speed == c.fine_speed
    &&& p.stable_ms == c.stable_ms
    &&& p.max_run_ms == c.max_run_ms
    &&& p.no_progress_ms == c.no_progress_ms
    &&& p.period_us == spec_period(MICROS_PER_SEC as int, c.sample_rate_hz as int)
    &&& p.median_window == c.median_window
    &&& p.ma_window == c.ma_window
    &&& p.ema_enabled == c.ema_enabled
    &&& p.predictor_enabled == c.predictor_enabled
    &&& p.predictor_window == c.predictor_window
    &&& p.pred_latency_ms == spec_pred_latency(c)
    &&& p.cal_gain_scaled == c.cal_gain_scaled
    &&& p.cal_offset_cg == c.cal_offset_cg
    &&& p.estop_debounce_n == c.estop_debounce_n
    &&& p.sensor_ms == c.sensor_ms
}

/// `first_violation` of a concatenation looks at the second part only when
/// the first part holds no violation.
pub proof fn lemma_first_violation_append(a: Seq<(bool, &'static str)>, b: Seq<(bool, &'static str)>)
    ensures
        first_violation(a + b) == (if first_violation(a) is Some {
            first_violation(a)
        } else {
            first_violation(b)
        }),
    decreases a.len(),
{
    if a.len() > 0 {
        assert((a + b).drop_first() =~= a.drop_first() + b);
        lemma_first_violation_append(a.drop_first(), b);
    } else {
        assert(a + b =~= b);
    }
}

/// Inserting by scanning from the end of the table: `x` goes after the last
/// band, counted from the end, whose threshold is at least `x`'s.
proof fn lemma_insert_desc_at(t: Seq<(i32, u32)>, x: (i32, u32), k: int)
    requires
        0 <= k <= t.len(),
        forall|j: int| k <= j < t.len() ==> t[j].0 < x.0,
        k == 0 || t[k - 1].0 >= x.0,
    ensures
        insert_desc(t, x) == t.insert(k, x),
    decreases t.len(),
{
    if t.len() == 0 {
        assert(t.insert(k, x) =~= seq![x]);
    } else if t.last().0 >= x.0 {
        assert(k == t.len());
        assert(t.insert(k, x) =~= t.push(x));
    } else {
        lemma_insert_desc_at(t.drop_last(), x, k);
        assert(t.drop_last().insert(k, x).push(t.last()) =~= t.insert(k, x));
    }
}

/// The band table sorted stably by descending threshold.
fn sort_bands(bands: &Vec<BandSetting>) -> (t: Vec<(i32, u32)>)
    ensures
        t@ == sort_bands_desc(band_pairs(bands@)),
{
    let ghost pairs = band_pairs(bands@);
    let mut t: Vec<(i32, u32)> = Vec::new();
    let n = bands.len();
    let mut i: usize = 0;
    proof {
        assert(pairs.take(0) =~= Seq::<(i32, u32)>::empty());
    }
    while i < n
        invariant
            n == bands@.len(),
            pairs == band_pairs(bands@),
            i <= n,
            t@ == sort_bands_desc(pairs.take(i as int)),
        decreases n - i,
    {
        let x = (bands[i].threshold_cg, bands[i].sps);
        let mut k: usize = t.len();
        while k > 0 && t[k - 1].0 < x.0
            invariant
                k <= t@.len(),
                forall|j: int| k <= j < t@.len() ==> t@[j].0 < x.0,
            decreases k,
        {
            k = k - 1;
        }
        proof {
            lemma_insert_desc_at(t@, x, k as int);
            assert(pairs.take(i + 1).drop_last() =~= pairs.take(i as int));
            assert(pairs.take(i + 1).last() == x);
        }
        t.insert(k, x);
        i = i + 1;
    }
    proof {
        assert(pairs.take(n as int) =~= pairs);
    }
    t
}

/// Validate a configuration and build its controller, whose run starts at
/// `now` (ms). The first failing check, in the order of [`build_checks`],
/// is reported; a valid configuration always builds.
pub fn validate_and_build(cfg: BuildConfig, now: u64) -> (r: Result<DoserCore, BuildError>)
    ensures
        match first_violation(build_checks(cfg)) {
            Some(m) => r == Err::<DoserCore, BuildError>(BuildError::InvalidConfig(m)),
            None => r is Ok && built_from(r->Ok_0.params_view(), cfg) && r->Ok_0.state() == spec_begin(
                r->Ok_0.state(),
                now,
            ) && r->Ok_0.state().zero_counts == cfg.zero_counts,
        },
{
    let ghost base = seq![
        (!cfg.target_in_range, "target grams out of range"),
        (cfg.hysteresis.sign_negative, "hysteresis_g must be >= 0"),
        (cfg.slow_at.sign_negative, "slow_at_g must be >= 0"),
        (cfg.coarse_speed == 0 || cfg.fine_speed == 0, "motor speeds must be > 0"),
        (cfg.sensor_ms == 0, "sensor_ms must be >= 1"),
        (cfg.max_overshoot.sign_negative, "max_overshoot_g must be >= 0"),
        (cfg.no_progress_epsilon.sign_negative, "no_progress_epsilon_g must be >= 0"),
        (cfg.sample_rate_hz == 0, "sample_rate_hz must be > 0"),
    ];
    proof {
        lemma_first_violation_append(base, bands_checks(cfg.speed_bands@));
        assert(build_checks(cfg) == base + bands_checks(cfg.speed_bands@));
        reveal_with_fuel(first_violation, 9);
    }
    if !cfg.target_in_range {
        return Err(BuildError::InvalidConfig("target grams out of range"));
    }
    if cfg.hysteresis.sign_negative {
        return Err(BuildError::InvalidConfig("hysteresis_g must be >= 0"));
    }
    if cfg.slow_at.sign_negative {
        return Err(BuildError::InvalidConfig("slow_at_g must be >= 0"));
    }
    if cfg.coarse_speed == 0 || cfg.fine_speed == 0 {
        return Err(BuildError::InvalidConfig("motor speeds must be > 0"));
    }
    if cfg.sensor_ms == 0 {
        return Err(BuildError::InvalidConfig("sensor_ms must be >= 1"));
    }
    if cfg.max_overshoot.sign_negative {
        return Err(BuildError::InvalidConfig("max_overshoot_g must be >= 0"));
    }
    if cfg.no_progress_epsilon.sign_negative {
        return Err(BuildError::InvalidConfig("no_progress_epsilon_g must be >= 0"));
    }
    if cfg.sample_rate_hz == 0 {
        return Err(BuildError::InvalidConfig("sample_rate_hz must be > 0"));
    }
    let n = cfg.speed_bands.len();
    let mut i: usize = 0;
    proof {
        assert(cfg.speed_bands@.skip(0) =~= cfg.speed_bands@);
    }
    while i < n
        invariant
            n == cfg.speed_bands@.len(),
            i <= n,
            first_violation(build_checks(cfg)) == first_violation(bands_checks(cfg.speed_bands@)),
            first_violation(bands_checks(cfg.speed_bands@)) == first_violation(
                bands_checks(cfg.speed_bands@.skip(i as int)),
            ),
        decreases n - i,
    {
        let b = cfg.speed_bands[i];
        proof {
            let rest = cfg.speed_bands@.skip(i as int);
            assert(rest[0] == b);
            assert(rest.drop_first() =~= cfg.speed_bands@.skip(i + 1));
            assert(bands_checks(rest) == band_checks(b) + bands_checks(rest.drop_first()));
            lemma_first_violation_append(band_checks(b), bands_checks(rest.drop_first()));
            reveal_with_fuel(first_violation, 4);
        }
        if !b.threshold_finite {
            return Err(BuildError::InvalidConfig("speed band threshold must be finite"));
        }
        if b.threshold_below_zero {
            return Err(BuildError::InvalidConfig("speed band threshold must be >= 0"));
        }
        if b.sps == 0 {
            return Err(BuildError::InvalidConfig("speed band speed must be > 0"));
        }
        i = i + 1;
    }
    proof {
        assert(cfg.speed_bands@.skip(n as int) =~= Seq::<BandSetting>::empty());
    }
    let p_us = period_us(cfg.sample_rate_hz);
    let p_ms = (p_us + 999) / 1000;
    let lat: u64 = if p_ms > u64::MAX - cfg.extra_latency_ms {
        u64::MAX
    } else {
        p_ms + cfg.extra_latency_ms
    };
    let bands = sort_bands(&cfg.speed_bands);
    let params = CoreParams {
        target_cg: cfg.target_cg,
        epsilon_cg: cfg.epsilon_cg,
        hysteresis_cg: cfg.hysteresis.cg,
        max_overshoot_cg: cfg.max_overshoot.cg,
        no_progress_epsilon_cg: cfg.no_progress_epsilon.cg,
        slow_at_cg: cfg.slow_at.cg,
        speed_bands_cg: bands,
        coarse_speed: cfg.coarse_speed,
        fine_speed: cfg.fine_speed,
        stable_ms: cfg.stable_ms,
        max_run_ms: cfg.max_run_ms,
        no_progress_ms: cfg.no_progress_ms,
        period_us: p_us,
        median_window: cfg.median_window,
        ma_window: cfg.ma_window,
        ema_enabled: cfg.ema_enabled,
        predictor_enabled: cfg.predictor_enabled,
        predictor_window: cfg.predictor_window,
        pred_latency_ms: lat,
        cal_gain_scaled: cfg.cal_gain_scaled,
        cal_offset_cg: cfg.cal_offset_cg,
        estop_debounce_n: cfg.estop_debounce_n,
        sensor_ms: cfg.sensor_ms,
    };
    Ok(DoserCore::new(params, cfg.zero_counts, now))
}

/// Inserting into a descending table keeps it descending and adds exactly
/// the inserted band.
proof fn lemma_insert_desc_props(t: Seq<(i32, u32)>, x: (i32, u32))
    requires
        bands_descending(t),
    ensures
        bands_descending(insert_desc(t, x)),
        insert_desc(t, x).to_multiset() == t.to_multiset().insert(x),
        insert_desc(t, x).len() == t.len() + 1,
    decreases t.len(),
{
    broadcast use vstd::seq_lib::group_to_multiset_ensures;
    broadcast use vstd::multiset::group_multiset_axioms;

    if t.len() == 0 {
        assert(seq![x] =~= Seq::<(i32, u32)>::empty().push(x));
    } else if t.last().0 >= x.0 {
    } else {
        let u = t.drop_last();
        assert(bands_descending(u));
        lemma_insert_desc_props(u, x);
        let v = insert_desc(u, x);
        assert(t =~= u.push(t.last()));
        assert forall|i: int, j: int| 0 <= i < j < v.push(t.last()).len() implies v.push(
            t.last(),
        )[i].0 >= v.push(t.last())[j].0 by {
            if j == v.len() {
                let e = v[i];
                assert(v.contains(e));
                assert(v.to_multiset().count(e) > 0);
                if e == x {
                    assert(x.0 > t.last().0);
                } else {
                    assert(u.contains(e));
                    let k = choose|k: int| 0 <= k < u.len() && u[k] == e;
                    assert(t[k] == e);
                    assert(t[k].0 >= t[t.len() - 1].0);
                }
            }
        }
    }
}

/// Sorting the speed table orders it by descending threshold and keeps
/// exactly its bands (as a multiset).
pub proof fn law_sorted_bands_are_descending_permutation(s: Seq<(i32, u32)>)
    ensures
        bands_descending(sort_bands_desc(s)),
        sort_bands_desc(s).to_multiset() == s.to_multiset(),
        sort_bands_desc(s).len() == s.len(),
    decreases s.len(),
{
    broadcast use vstd::seq_lib::group_to_multiset_ensures;

    if s.len() > 0 {
        law_sorted_bands_are_descending_permutation(s.drop_last());
        lemma_insert_desc_props(sort_bands_desc(s.drop_last()), s.last());
        assert(s =~= s.drop_last().push(s.last()));
    }
}

/// The speed of a band lookup is the speed of one of the bands.
proof fn lemma_band_speed_is_a_band(bands: Seq<(i32, u32)>, err: int)
    requires
        bands.len() > 0,
    ensures
        exists|i: int| 0 <= i < bands.len() && band_speed(bands, err) == #[trigger] bands[i].1,
    decreases bands.len(),
{
    if bands.len() <= 1 || err >= bands[0].0 {
        assert(band_speed(bands, err) == bands[0].1);
    } else {
        lemma_band_speed_is_a_band(bands.drop_first(), err);
        let i = choose|i: int| 0 <= i < bands.drop_first().len() && band_speed(bands.drop_first(), err) == #[trigger] bands.drop_first()[i].1;
        assert(bands[i + 1] == bands.drop_first()[i]);
    }
}

/// A controller built from a configuration that passes validation only
/// ever drives the motor at a non-zero rate, so the no-progress watchdog
/// always watches a motor that was asked to move.
pub proof fn law_valid_config_drives_at_positive_speed(c: BuildConfig, p: CoreParams, err: int)
    requires
        first_violation(build_checks(c)) is None,
        built_from(p, c),
    ensures
        speed_positive(spec_select_speed(p, err)),
{
    let base = seq![
        (!c.target_in_range, "target grams out of range"),
        (c.hysteresis.sign_negative, "hysteresis_g must be >= 0"),
        (c.slow_at.sign_negative, "slow_at_g must be >= 0"),
        (c.coarse_speed == 0 || c.fine_speed == 0, "motor speeds must be > 0"),
        (c.sensor_ms == 0, "sensor_ms must be >= 1"),
        (c.max_overshoot.sign_negative, "max_overshoot_g must be >= 0"),
        (c.no_progress_epsilon.sign_negative, "no_progress_epsilon_g must be >= 0"),
        (c.sample_rate_hz == 0, "sample_rate_hz must be > 0"),
    ];
    lemma_first_violation_append(base, bands_checks(c.speed_bands@));
    assert(build_checks(c) == base + bands_checks(c.speed_bands@));
    reveal_with_fuel(first_violation, 9);
    assert(c.coarse_speed != 0);
    lemma_bands_checks_pass(c.speed_bands@);
    let pairs = band_pairs(c.speed_bands@);
    law_sorted_bands_are_descending_permutation(pairs);
    let sorted = sort_bands_desc(pairs);
    if sorted.len() > 0 {
        lemma_band_speed_is_a_band(sorted, err);
        let i = choose|i: int| 0 <= i < sorted.len() && band_speed(sorted, err) == #[trigger] sorted[i].1;
        broadcast use vstd::seq_lib::group_to_multiset_ensures;
        assert(sorted.to_multiset().count(sorted[i]) > 0);
        assert(pairs.to_multiset().count(sorted[i]) > 0);
        assert(pairs.contains(sorted[i]));
        let k = choose|k: int| 0 <= k < pairs.len() && pairs[k] == sorted[i];
        assert(c.speed_bands@[k].sps != 0);
    }
}

/// A speed table that passes validation has only positive speeds.
proof fn lemma_bands_checks_pass(bands: Seq<BandSetting>)
    requires
        first_violation(bands_checks(bands)) is None,
    ensures
        forall|k: int| 0 <= k < bands.len() ==> #[trigger] bands[k].sps != 0,
    decreases bands.len(),
{
    if bands.len() > 0 {
        lemma_first_violation_append(band_checks(bands[0]), bands_checks(bands.drop_first()));
        reveal_with_fuel(first_violation, 4);
        lemma_bands_checks_pass(bands.drop_first());
        assert forall|k: int| 0 <= k < bands.len() implies #[trigger] bands[k].sps != 0 by {
            if k > 0 {
                assert(bands[k] == bands.drop_first()[k - 1]);
            }
        }
    }
}

} // verus!
