//! The dosing control loop as a verified state machine.
//!
//! [`DoserCore`] holds the parameters and the per-run state of one dose. Each
//! transition is specified by a spec function over [`CoreState`] (the
//! mathematical model of the run state); the executable method implements it
//! exactly. A transition never touches hardware: it returns a [`Command`]
//! that the caller carries out (stop the motor, start it, set a speed) and,
//! for a motor start that succeeded, reports back with
//! [`DoserCore::on_motor_started`].

use vstd::prelude::*;

use crate::error::AbortReason;
use crate::filter::{
    mean_i32, median_i32, push_window, push_window_vec, spec_mean, spec_median,
};
use crate::fixed_point::{abs_diff, abs_diff_i32_u32, saturate_i32};
use crate::filter::lemma_mean_in_range;
use crate::util::{lemma_round_half_away_bounded, round_half_away};

verus! {

/// How the motor speed is to be set by a [`Command::Drive`].
#[derive(Debug, Clone, Copy, PartialEq, Eq, Structural)]
pub enum SpeedCmd {
    /// A fixed step rate in steps per second.
    Fixed(u32),
    /// The proportional fine-speed taper of the two-speed mode: a fraction
    /// `0.2 + 0.8 * min(1, abs_err_cg / slow_at_cg)` of `fine_speed`, floored
    /// at one step per second. The taper is floating-point arithmetic and is
    /// evaluated by the caller.
    Taper { abs_err_cg: u32, slow_at_cg: i32, fine_speed: u32 },
}

/// What one control iteration asks of the motor, and what it reports.
#[derive(Debug, Clone, Copy, PartialEq, Eq, Structural)]
pub enum Command {
    /// Stop the motor (best effort) and report the dose as aborted.
    Abort(AbortReason),
    /// The predictor stopped early: stop the motor, wait a period, keep going.
    EarlyStop,
    /// In the completion zone but not settled yet: stop the motor, wait a
    /// period, keep going.
    Settling,
    /// Settled in the completion zone: stop the motor, the dose is complete.
    Complete,
    /// Start the motor first when `start`, then set its speed, wait a period,
    /// keep going.
    Drive { start: bool, speed: SpeedCmd },
}

/// A slope measurement of the predictor: the weight rose by `rise_cg` over
/// `elapsed_ms` milliseconds.
#[derive(Debug, Clone, Copy, PartialEq, Eq, Structural)]
pub struct SlopeSample {
    pub rise_cg: i64,
    pub elapsed_ms: i64,
}

/// The command of one control iteration, and the predictor's slope sample
/// when the predictor computed one.
#[derive(Debug, Clone, Copy, PartialEq, Eq, Structural)]
pub struct StepOutcome {
    pub command: Command,
    pub slope_sample: Option<SlopeSample>,
}

/// Fixed parameters of a dose, all in integer units (centigrams, steps per
/// second, milliseconds, microseconds).
#[derive(Debug, Clone)]
pub struct CoreParams {
    pub target_cg: i32,
    pub epsilon_cg: i32,
    pub hysteresis_cg: i32,
    pub max_overshoot_cg: i32,
    pub no_progress_epsilon_cg: i32,
    pub slow_at_cg: i32,
    /// `(threshold_cg, sps)` pairs, by descending threshold.
    pub speed_bands_cg: Vec<(i32, u32)>,
    pub coarse_speed: u32,
    pub fine_speed: u32,
    pub stable_ms: u64,
    pub max_run_ms: u64,
    pub no_progress_ms: u64,
    pub period_us: u64,
    pub median_window: usize,
    pub ma_window: usize,
    /// When set, the smoothing stage is an exponential moving average that the
    /// caller applies to the median output; the moving average is bypassed.
    pub ema_enabled: bool,
    pub predictor_enabled: bool,
    pub predictor_window: usize,
    pub pred_latency_ms: u64,
    pub cal_gain_scaled: i64,
    pub cal_offset_cg: i32,
    pub estop_debounce_n: u8,
    pub sensor_ms: u64,
}

/// The mathematical model of the per-run state of a dose.
pub struct CoreState {
    pub zero_counts: i32,
    pub last_weight_cg: i32,
    pub settled_since_ms: Option<u64>,
    pub start_ms: u64,
    pub ma_buf: Seq<i32>,
    pub med_buf: Seq<i32>,
    pub motor_started: bool,
    pub last_progress_cg: i32,
    pub last_progress_at_ms: u64,
    pub estop_latched: bool,
    pub estop_count: u8,
    pub pred_hist: Seq<(u64, i32)>,
    pub last_inflight_cg: Option<i32>,
    pub early_stop_at_cg: Option<i32>,
}

/// `a - b`, or 0 when `b > a`.
pub open spec fn sat_sub(a: u64, b: u64) -> int {
    if a >= b {
        a - b
    } else {
        0
    }
}

/// Clamp an integer into the `i64` range.
pub open spec fn saturate_i64(x: int) -> int {
    if x > i64::MAX {
        i64::MAX as int
    } else if x < i64::MIN {
        i64::MIN as int
    } else {
        x
    }
}

/// The value of a `u64` reinterpreted as an `i64` (two's complement).
pub open spec fn u64_as_signed(x: u64) -> int {
    if x <= i64::MAX {
        x as int
    } else {
        x - 0x1_0000_0000_0000_0000
    }
}

/// `|x|` as an integer.
pub open spec fn abs_int(x: int) -> int {
    if x >= 0 {
        x
    } else {
        -x
    }
}

/// Capacity of a rolling window configured as `w` (0 counts as 1).
pub open spec fn window_cap(w: usize) -> int {
    if w >= 1 {
        w as int
    } else {
        1
    }
}

/// The speed of the first band whose threshold the error reaches; when the
/// error is below every threshold, the speed of the last (lowest) band.
pub open spec fn band_speed(bands: Seq<(i32, u32)>, err: int) -> u32
    decreases bands.len(),
{
    if bands.len() <= 1 {
        bands[0].1
    } else if err >= bands[0].0 {
        bands[0].1
    } else {
        band_speed(bands.drop_first(), err)
    }
}

/// Speed selection for a control error `err = target - weight`: the speed
/// table when it has bands, else the two-speed mode (the fine-speed taper
/// within `slow_at_cg` of the target, the coarse speed beyond).
pub open spec fn spec_select_speed(p: CoreParams, err: int) -> SpeedCmd {
    if p.speed_bands_cg@.len() == 0 {
        if p.slow_at_cg > 0 && abs_int(err) <= p.slow_at_cg {
            SpeedCmd::Taper {
                abs_err_cg: abs_int(err) as u32,
                slow_at_cg: p.slow_at_cg,
                fine_speed: p.fine_speed,
            }
        } else {
            SpeedCmd::Fixed(p.coarse_speed)
        }
    } else {
        SpeedCmd::Fixed(band_speed(p.speed_bands_cg@, err))
    }
}

/// Whether a speed command asks for a non-zero rate (the taper never asks
/// for less than one step per second).
pub open spec fn speed_positive(s: SpeedCmd) -> bool {
    match s {
        SpeedCmd::Fixed(sps) => sps > 0,
        SpeedCmd::Taper { .. } => true,
    }
}

/// The state with the motor marked stopped.
pub open spec fn stopped(s: CoreState) -> CoreState {
    CoreState { motor_started: false, ..s }
}

/// Raw counts to centigrams with the calibration of the dose.
pub open spec fn spec_to_cg(p: CoreParams, s: CoreState, raw: i32) -> int {
    crate::calibration::spec_raw_to_cg(p.cal_gain_scaled as int, s.zero_counts as int, p.cal_offset_cg as int, raw as int)
}

/// The filter stage: an optional rolling median, then (unless the caller
/// smooths with an exponential moving average) an optional rolling mean.
pub open spec fn spec_filter(p: CoreParams, s: CoreState, x: i32) -> (CoreState, int) {
    let mcap = window_cap(p.median_window);
    let acap = window_cap(p.ma_window);
    let (s1, m) = if mcap > 1 {
        let b = push_window(s.med_buf, x, mcap);
        (CoreState { med_buf: b, ..s }, spec_median(b))
    } else {
        (s, x as int)
    };
    if p.ema_enabled {
        (s1, m)
    } else if acap > 1 {
        let b = push_window(s1.ma_buf, m as i32, acap);
        (CoreState { ma_buf: b, ..s1 }, spec_mean(b))
    } else {
        (s1, m)
    }
}

/// The E-stop gate of an iteration. `pressed` is the reading of the E-stop
/// input (`None` when the dose has no E-stop input); a latched E-stop is not
/// polled again. The latch closes once `estop_debounce_n` pressed readings
/// follow each other; while it is closed the motor is to be stopped.
pub open spec fn spec_estop(p: CoreParams, s: CoreState, pressed: Option<bool>) -> (CoreState, bool) {
    if s.estop_latched {
        (stopped(s), true)
    } else {
        match pressed {
            None => (s, false),
            Some(true) => {
                let c: u8 = if s.estop_count < 255 {
                    (s.estop_count + 1) as u8
                } else {
                    255u8
                };
                if c >= p.estop_debounce_n {
                    (CoreState { estop_count: c, estop_latched: true, motor_started: false, ..s }, true)
                } else {
                    (CoreState { estop_count: c, ..s }, false)
                }
            },
            Some(false) => (CoreState { estop_count: 0, ..s }, false),
        }
    }
}

/// The predictor: keeps a rolling history of `(time, weight)`, estimates the
/// mass still in flight as `rise * latency / elapsed` over the history window
/// and stops early when the weight plus that estimate (plus epsilon) reaches
/// the target. Below the minimum progress ratio (`below_min_progress`, for a
/// positive target) it only records history. Returns the new state, whether
/// it stopped early, and the slope sample it computed.
pub open spec fn spec_predict(
    p: CoreParams,
    s: CoreState,
    now: u64,
    w: i32,
    below_min_progress: bool,
) -> (CoreState, bool, Option<SlopeSample>) {
    if !p.predictor_enabled {
        (s, false, None)
    } else {
        let hist = push_window(s.pred_hist, (now, w), window_cap(p.predictor_window));
        let s1 = CoreState { pred_hist: hist, ..s };
        if p.target_cg > 0 && below_min_progress {
            (s1, false, None)
        } else if hist.len() < 2 {
            (s1, false, None)
        } else {
            let t0 = hist[0].0;
            let w0 = hist[0].1;
            let dt = sat_sub(now, t0);
            let dw = w - w0;
            if dt == 0 || dw <= 0 {
                (s1, false, None)
            } else {
                let num = saturate_i64(dw * u64_as_signed(p.pred_latency_ms));
                let den = if dt <= i64::MAX {
                    dt
                } else {
                    1
                };
                let inflight = saturate_i32(round_half_away(num, den));
                let s2 = CoreState { last_inflight_cg: Some(inflight as i32), ..s1 };
                let predicted = saturate_i32(saturate_i32(w + inflight) + p.epsilon_cg);
                let sample = Some(SlopeSample { rise_cg: dw as i64, elapsed_ms: den as i64 });
                if predicted >= p.target_cg {
                    (CoreState { motor_started: false, early_stop_at_cg: Some(w), ..s2 }, true, sample)
                } else {
                    (s2, false, sample)
                }
            }
        }
    }
}

/// The drive command for a state and a selected speed: a motor that is not
/// running is started before its speed is set.
pub open spec fn drive(s: CoreState, speed: SpeedCmd, slope: Option<SlopeSample>) -> (CoreState, StepOutcome) {
    (s, StepOutcome { command: Command::Drive { start: !s.motor_started, speed }, slope_sample: slope })
}

/// One control decision for a filtered weight `w` (cg) at time `now` (ms
/// since the epoch of the run): the run-time cap, the overshoot guard, the
/// predictor, settle detection in the completion zone, speed selection and
/// the no-progress watchdog, in that order.
pub open spec fn spec_step(
    p: CoreParams,
    s: CoreState,
    w: i32,
    now: u64,
    below_min_progress: bool,
) -> (CoreState, StepOutcome) {
    let s0 = CoreState { last_weight_cg: w, ..s };
    let err = p.target_cg - w;
    if sat_sub(now, s.start_ms) >= p.max_run_ms {
        (stopped(s0), StepOutcome { command: Command::Abort(AbortReason::MaxRuntime), slope_sample: None })
    } else if w > p.target_cg + p.max_overshoot_cg {
        (stopped(s0), StepOutcome { command: Command::Abort(AbortReason::Overshoot), slope_sample: None })
    } else {
        let (s1, early, slope) = spec_predict(p, s0, now, w, below_min_progress);
        if early {
            (s1, StepOutcome { command: Command::EarlyStop, slope_sample: slope })
        } else if w + p.epsilon_cg >= p.target_cg {
            let hyst_or_eps = if p.hysteresis_cg >= p.epsilon_cg {
                p.hysteresis_cg
            } else {
                p.epsilon_cg
            };
            let below_band = abs_int(err) > abs_int(hyst_or_eps as int) && w < p.target_cg;
            let since: u64 = match s1.settled_since_ms {
                None => now,
                Some(t) => if below_band {
                    now
                } else {
                    t
                },
            };
            let s2 = CoreState { motor_started: false, settled_since_ms: Some(since), ..s1 };
            if sat_sub(now, since) >= p.stable_ms {
                (s2, StepOutcome { command: Command::Complete, slope_sample: slope })
            } else {
                (s2, StepOutcome { command: Command::Settling, slope_sample: slope })
            }
        } else {
            let s2 = CoreState { settled_since_ms: None, ..s1 };
            let speed = spec_select_speed(p, err);
            if p.no_progress_ms > 0 && p.no_progress_epsilon_cg > 0 && speed_positive(speed) {
                if abs_diff(w as int, s2.last_progress_cg as int) >= p.no_progress_epsilon_cg {
                    drive(CoreState { last_progress_cg: w, last_progress_at_ms: now, ..s2 }, speed, slope)
                } else if sat_sub(now, s2.last_progress_at_ms) >= p.no_progress_ms {
                    (stopped(s2), StepOutcome { command: Command::Abort(AbortReason::NoProgress), slope_sample: slope })
                } else {
                    drive(s2, speed, slope)
                }
            } else {
                drive(s2, speed, slope)
            }
        }
    }
}

/// The per-run state at the start of a dose at time `now`.
pub open spec fn spec_begin(s: CoreState, now: u64) -> CoreState {
    CoreState {
        zero_counts: s.zero_counts,
        last_weight_cg: 0,
        settled_since_ms: None,
        start_ms: now,
        ma_buf: Seq::empty(),
        med_buf: Seq::empty(),
        motor_started: false,
        last_progress_cg: 0,
        last_progress_at_ms: now,
        estop_latched: false,
        estop_count: 0,
        pred_hist: Seq::empty(),
        last_inflight_cg: None,
        early_stop_at_cg: None,
    }
}

/// The dosing controller: fixed parameters plus the per-run state.
pub struct DoserCore {
    params: CoreParams,
    zero_counts: i32,
    last_weight_cg: i32,
    settled_since_ms: Option<u64>,
    start_ms: u64,
    ma_buf: Vec<i32>,
    med_buf: Vec<i32>,
    motor_started: bool,
    last_progress_cg: i32,
    last_progress_at_ms: u64,
    estop_latched: bool,
    estop_count: u8,
    pred_hist: Vec<(u64, i32)>,
    last_inflight_cg: Option<i32>,
    early_stop_at_cg: Option<i32>,
}

impl DoserCore {
    /// The fixed parameters of the dose.
    pub closed spec fn params_view(&self) -> CoreParams {
        self.params
    }

    /// The model of the per-run state.
    pub closed spec fn state(&self) -> CoreState {
        CoreState {
            zero_counts: self.zero_counts,
            last_weight_cg: self.last_weight_cg,
            settled_since_ms: self.settled_since_ms,
            start_ms: self.start_ms,
            ma_buf: self.ma_buf@,
            med_buf: self.med_buf@,
            motor_started: self.motor_started,
            last_progress_cg: self.last_progress_cg,
            last_progress_at_ms: self.last_progress_at_ms,
            estop_latched: self.estop_latched,
            estop_count: self.estop_count,
            pred_hist: self.pred_hist@,
            last_inflight_cg: self.last_inflight_cg,
            early_stop_at_cg: self.early_stop_at_cg,
        }
    }

    /// A controller for the given parameters whose run starts at `now` (ms).
    pub fn new(params: CoreParams, zero_counts: i32, now: u64) -> (c: DoserCore)
        ensures
            c.params_view() == params,
            c.state() == spec_begin(c.state(), now),
            c.state().zero_counts == zero_counts,
    {
        DoserCore {
            params,
            zero_counts,
            last_weight_cg: 0,
            settled_since_ms: None,
            start_ms: now,
            ma_buf: Vec::new(),
            med_buf: Vec::new(),
            motor_started: false,
            last_progress_cg: 0,
            last_progress_at_ms: now,
            estop_latched: false,
            estop_count: 0,
            pred_hist: Vec::new(),
            last_inflight_cg: None,
            early_stop_at_cg: None,
        }
    }

    /// The fixed parameters of the dose.
    pub fn params(&self) -> (p: &CoreParams)
        ensures
            *p == self.params_view(),
    {
        &self.params
    }

    /// The last filtered weight, in centigrams.
    pub fn last_weight_cg(&self) -> (w: i32)
        ensures
            w == self.state().last_weight_cg,
    {
        self.last_weight_cg
    }

    /// The predictor's last in-flight mass estimate, in centigrams.
    pub fn last_inflight_cg(&self) -> (v: Option<i32>)
        ensures
            v == self.state().last_inflight_cg,
    {
        self.last_inflight_cg
    }

    /// The weight at which the predictor stopped early, in centigrams.
    pub fn early_stop_at_cg(&self) -> (v: Option<i32>)
        ensures
            v == self.state().early_stop_at_cg,
    {
        self.early_stop_at_cg
    }

    /// Whether the motor was started by this controller and not stopped since.
    pub fn motor_started(&self) -> (b: bool)
        ensures
            b == self.state().motor_started,
    {
        self.motor_started
    }

    /// Whether the E-stop is latched.
    pub fn estop_latched(&self) -> (b: bool)
        ensures
            b == self.state().estop_latched,
    {
        self.estop_latched
    }

    /// Set the tare baseline in raw counts.
    pub fn set_tare_counts(&mut self, zero_counts: i32)
        ensures
            final(self).params_view() == old(self).params_view(),
            final(self).state() == (CoreState { zero_counts, ..old(self).state() }),
    {
        self.zero_counts = zero_counts;
    }

    /// Reset the per-run state for a new dose starting at `now` (ms).
    pub fn begin(&mut self, now: u64)
        ensures
            final(self).params_view() == old(self).params_view(),
            final(self).state() == spec_begin(old(self).state(), now),
    {
        self.start_ms = now;
        self.settled_since_ms = None;
        self.ma_buf = Vec::new();
        self.med_buf = Vec::new();
        self.last_weight_cg = 0;
        self.motor_started = false;
        self.last_progress_cg = 0;
        self.last_progress_at_ms = now;
        self.estop_latched = false;
        self.estop_count = 0;
        self.pred_hist = Vec::new();
        self.last_inflight_cg = None;
        self.early_stop_at_cg = None;
    }

    /// Record that a motor start asked for by a drive command succeeded at
    /// `now`. Time spent deliberately stopped does not count against the
    /// restarted motor: the no-progress baseline moves to the last weight.
    pub fn on_motor_started(&mut self, now: u64)
        ensures
            final(self).params_view() == old(self).params_view(),
            final(self).state() == (CoreState {
                motor_started: true,
                last_progress_cg: old(self).state().last_weight_cg,
                last_progress_at_ms: now,
                ..old(self).state()
            }),
    {
        self.motor_started = true;
        self.last_progress_cg = self.last_weight_cg;
        self.last_progress_at_ms = now;
    }

    /// Record a stop of the motor (made by the caller, successful or not).
    pub fn motor_stop(&mut self)
        ensures
            final(self).params_view() == old(self).params_view(),
            final(self).state() == stopped(old(self).state()),
    {
        self.motor_started = false;
    }

    /// Raw counts to centigrams with the calibration of the dose.
    pub fn to_cg_cached(&self, raw: i32) -> (cg: i32)
        ensures
            cg == spec_to_cg(self.params_view(), self.state(), raw),
    {
        crate::calibration::raw_to_cg(self.params.cal_gain_scaled, self.zero_counts, self.params.cal_offset_cg, raw)
    }

    /// The filter stage for one calibrated sample.
    pub fn apply_filter(&mut self, x: i32) -> (y: i32)
        ensures
            final(self).params_view() == old(self).params_view(),
            (final(self).state(), y as int) == spec_filter(old(self).params_view(), old(self).state(), x),
    {
        let mcap = if self.params.median_window >= 1 {
            self.params.median_window
        } else {
            1
        };
        let acap = if self.params.ma_window >= 1 {
            self.params.ma_window
        } else {
            1
        };
        let m = if mcap > 1 {
            push_window_vec(&mut self.med_buf, x, mcap);
            median_i32(&self.med_buf)
        } else {
            x
        };
        if self.params.ema_enabled {
            m
        } else if acap > 1 {
            push_window_vec(&mut self.ma_buf, m, acap);
            mean_i32(&self.ma_buf)
        } else {
            m
        }
    }

    /// Calibrate and filter one raw sample.
    pub fn filter_raw(&mut self, raw: i32) -> (y: i32)
        ensures
            final(self).params_view() == old(self).params_view(),
            (final(self).state(), y as int) == spec_filter(
                old(self).params_view(),
                old(self).state(),
                spec_to_cg(old(self).params_view(), old(self).state(), raw) as i32,
            ),
    {
        let x = self.to_cg_cached(raw);
        self.apply_filter(x)
    }

    /// The E-stop gate of an iteration (see [`spec_estop`]). Returns `true`
    /// when the E-stop is latched; the caller then stops the motor and
    /// reports an E-stop abort.
    pub fn poll_estop_stop(&mut self, pressed: Option<bool>) -> (latched: bool)
        ensures
            final(self).params_view() == old(self).params_view(),
            (final(self).state(), latched) == spec_estop(old(self).params_view(), old(self).state(), pressed),
    {
        if self.estop_latched {
            self.motor_started = false;
            return true;
        }
        match pressed {
            None => false,
            Some(true) => {
                self.estop_count = if self.estop_count < 255 {
                    self.estop_count + 1
                } else {
                    255
                };
                if self.estop_count >= self.params.estop_debounce_n {
                    self.estop_latched = true;
                    self.motor_started = false;
                    true
                } else {
                    false
                }
            },
            Some(false) => {
                self.estop_count = 0;
                false
            },
        }
    }

    /// The predictor of one iteration (see [`spec_predict`]).
    fn maybe_early_stop(&mut self, now: u64, w: i32, below_min_progress: bool) -> (r: (bool, Option<SlopeSample>))
        ensures
            final(self).params_view() == old(self).params_view(),
            (final(self).state(), r.0, r.1) == spec_predict(
                old(self).params_view(),
                old(self).state(),
                now,
                w,
                below_min_progress,
            ),
    {
        if !self.params.predictor_enabled {
            return (false, None);
        }
        let cap = if self.params.predictor_window >= 1 {
            self.params.predictor_window
        } else {
            1
        };
        push_window_vec(&mut self.pred_hist, (now, w), cap);
        if self.params.target_cg > 0 && below_min_progress {
            return (false, None);
        }
        if self.pred_hist.len() < 2 {
            return (false, None);
        }
        let t0 = self.pred_hist[0].0;
        let w0 = self.pred_hist[0].1;
        let dt: u64 = if now >= t0 {
            now - t0
        } else {
            0
        };
        let dw: i64 = (w as i64) - (w0 as i64);
        if dt == 0 || dw <= 0 {
            return (false, None);
        }
        let lat_u = self.params.pred_latency_ms;
        let lat: i128 = if lat_u <= (i64::MAX as u64) {
            lat_u as i128
        } else {
            (lat_u as i128) - 0x1_0000_0000_0000_0000i128
        };
        proof {
            assert(-0x2_0000_0000 <= dw <= 0x2_0000_0000);
            assert(-0x1_0000_0000_0000_0000 <= lat <= 0x1_0000_0000_0000_0000);
            assert(-0x2_0000_0000 * 0x1_0000_0000_0000_0000 <= dw * lat <= 0x2_0000_0000
                * 0x1_0000_0000_0000_0000) by (nonlinear_arith)
                requires
                    -0x2_0000_0000 <= dw <= 0x2_0000_0000,
                    -0x1_0000_0000_0000_0000 <= lat <= 0x1_0000_0000_0000_0000,
            ;
        }
        let prod: i128 = (dw as i128) * lat;
        let num: i128 = if prod > (i64::MAX as i128) {
            i64::MAX as i128
        } else if prod < (i64::MIN as i128) {
            i64::MIN as i128
        } else {
            prod
        };
        let den: i128 = if dt <= (i64::MAX as u64) {
            dt as i128
        } else {
            1
        };
        proof {
            lemma_round_half_away_bounded(num as int, den as int);
        }
        let q: i128 = if num >= 0 {
            (num + den / 2) / den
        } else {
            -((-num + den / 2) / den)
        };
        let inflight: i32 = if q > (i32::MAX as i128) {
            i32::MAX
        } else if q < (i32::MIN as i128) {
            i32::MIN
        } else {
            q as i32
        };
        self.last_inflight_cg = Some(inflight);
        let p1: i64 = (w as i64) + (inflight as i64);
        let s1: i64 = if p1 > (i32::MAX as i64) {
            i32::MAX as i64
        } else if p1 < (i32::MIN as i64) {
            i32::MIN as i64
        } else {
            p1
        };
        let p2: i64 = s1 + (self.params.epsilon_cg as i64);
        let predicted: i64 = if p2 > (i32::MAX as i64) {
            i32::MAX as i64
        } else if p2 < (i32::MIN as i64) {
            i32::MIN as i64
        } else {
            p2
        };
        let sample = SlopeSample { rise_cg: dw, elapsed_ms: den as i64 };
        if predicted >= (self.params.target_cg as i64) {
            self.motor_started = false;
            self.early_stop_at_cg = Some(w);
            (true, Some(sample))
        } else {
            (false, Some(sample))
        }
    }

    /// One control decision for the filtered weight `w` (cg) at `now` (ms
    /// since the epoch of the run); see [`spec_step`]. `below_min_progress`
    /// tells whether `w / target` is below the predictor's minimum progress
    /// ratio (a floating-point comparison made by the caller).
    pub fn process_weight(&mut self, w: i32, now: u64, below_min_progress: bool) -> (out: StepOutcome)
        ensures
            final(self).params_view() == old(self).params_view(),
            (final(self).state(), out) == spec_step(
                old(self).params_view(),
                old(self).state(),
                w,
                now,
                below_min_progress,
            ),
    {
        self.last_weight_cg = w;
        let target = self.params.target_cg as i64;
        let err: i64 = target - (w as i64);
        let elapsed: u64 = if now >= self.start_ms {
            now - self.start_ms
        } else {
            0
        };
        if elapsed >= self.params.max_run_ms {
            self.motor_started = false;
            return StepOutcome { command: Command::Abort(AbortReason::MaxRuntime), slope_sample: None };
        }
        if (w as i64) > target + (self.params.max_overshoot_cg as i64) {
            self.motor_started = false;
            return StepOutcome { command: Command::Abort(AbortReason::Overshoot), slope_sample: None };
        }
        let (early, slope) = self.maybe_early_stop(now, w, below_min_progress);
        if early {
            return StepOutcome { command: Command::EarlyStop, slope_sample: slope };
        }
        if (w as i64) + (self.params.epsilon_cg as i64) >= target {
            self.motor_started = false;
            let he: i64 = if self.params.hysteresis_cg >= self.params.epsilon_cg {
                self.params.hysteresis_cg as i64
            } else {
                self.params.epsilon_cg as i64
            };
            let band: i64 = if he >= 0 {
                he
            } else {
                -he
            };
            let abs_err: i64 = if err >= 0 {
                err
            } else {
                -err
            };
            let below_band = abs_err > band && (w as i64) < target;
            let since: u64 = match self.settled_since_ms {
                None => now,
                Some(t) => if below_band {
                    now
                } else {
                    t
                },
            };
            self.settled_since_ms = Some(since);
            let held: u64 = if now >= since {
                now - since
            } else {
                0
            };
            if held >= self.params.stable_ms {
                return StepOutcome { command: Command::Complete, slope_sample: slope };
            } else {
                return StepOutcome { command: Command::Settling, slope_sample: slope };
            }
        }
        self.settled_since_ms = None;
        let speed = self.select_speed(err);
        let positive = match speed {
            SpeedCmd::Fixed(sps) => sps > 0,
            SpeedCmd::Taper { .. } => true,
        };
        if self.params.no_progress_ms > 0 && self.params.no_progress_epsilon_cg > 0 && positive {
            let delta = abs_diff_i32_u32(w, self.last_progress_cg);
            if (delta as i64) >= (self.params.no_progress_epsilon_cg as i64) {
                self.last_progress_cg = w;
                self.last_progress_at_ms = now;
            } else {
                let quiet: u64 = if now >= self.last_progress_at_ms {
                    now - self.last_progress_at_ms
                } else {
                    0
                };
                if quiet >= self.params.no_progress_ms {
                    self.motor_started = false;
                    return StepOutcome { command: Command::Abort(AbortReason::NoProgress), slope_sample: slope };
                }
            }
        }
        StepOutcome { command: Command::Drive { start: !self.motor_started, speed }, slope_sample: slope }
    }

    /// Speed selection for a control error `err = target - weight`.
    pub fn select_speed(&self, err: i64) -> (s: SpeedCmd)
        requires
            i32::MIN - i32::MAX <= err <= i32::MAX - i32::MIN,
        ensures
            s == spec_select_speed(self.params_view(), err as int),
    {
        let abs_err: i64 = if err >= 0 {
            err
        } else {
            -err
        };
        let n = self.params.speed_bands_cg.len();
        if n == 0 {
            if self.params.slow_at_cg > 0 && abs_err <= self.params.slow_at_cg as i64 {
                SpeedCmd::Taper {
                    abs_err_cg: abs_err as u32,
                    slow_at_cg: self.params.slow_at_cg,
                    fine_speed: self.params.fine_speed,
                }
            } else {
                SpeedCmd::Fixed(self.params.coarse_speed)
            }
        } else {
            let mut i: usize = 0;
            proof {
                assert(self.params.speed_bands_cg@.skip(0) =~= self.params.speed_bands_cg@);
            }
            while i + 1 < n && err < self.params.speed_bands_cg[i].0 as i64
                invariant
                    n == self.params.speed_bands_cg@.len(),
                    n > 0,
                    i < n,
                    band_speed(self.params.speed_bands_cg@, err as int) == band_speed(
                        self.params.speed_bands_cg@.skip(i as int),
                        err as int,
                    ),
                decreases n - i,
            {
                proof {
                    let b = self.params.speed_bands_cg@.skip(i as int);
                    assert(b.drop_first() =~= self.params.speed_bands_cg@.skip(i + 1));
                    assert(b[0] == self.params.speed_bands_cg@[i as int]);
                }
                i = i + 1;
            }
            proof {
                let b = self.params.speed_bands_cg@.skip(i as int);
                assert(b[0] == self.params.speed_bands_cg@[i as int]);
                assert(self.params.speed_bands_cg@.skip(0) == self.params.speed_bands_cg@);
            }
            SpeedCmd::Fixed(self.params.speed_bands_cg[i].1)
        }
    }
}

} // verus!
