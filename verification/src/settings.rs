//! The settings of a dosing station as read from its configuration file,
//! and their validation.

use vstd::prelude::*;

use crate::builder::first_violation;

verus! {

/// GPIO pin assignment.
#[derive(Debug, Clone, Copy)]
pub struct Pins {
    pub hx711_dt: u8,
    pub hx711_sck: u8,
    pub motor_step: u8,
    pub motor_dir: u8,
    pub motor_en: Option<u8>,
    pub estop_in: Option<u8>,
}

/// Sampling timeouts.
#[derive(Debug, Clone, Copy)]
pub struct Timeouts {
    /// Sampling timeout per read (ms).
    pub sample_ms: u64,
    /// A settle window some configurations place here; read and ignored.
    pub settle_ms: Option<u64>,
}

/// Log sink settings.
#[derive(Debug, Clone)]
pub struct Logging {
    /// Path of a JSON-lines log file.
    pub file: Option<String>,
    /// Log level name ("info", "debug", ...).
    pub level: Option<String>,
    /// Rotation policy: "never" | "daily" | "hourly" (default: never).
    pub rotation: Option<String>,
}

impl Default for Logging {
    fn default() -> (l: Self)
        ensures
            l.file is None,
            l.level is None,
            l.rotation is None,
    {
        Logging { file: None, level: None, rotation: None }
    }
}

/// Hardware access settings.
#[derive(Debug, Clone, Copy)]
pub struct Hardware {
    /// Max time to wait for the HX711 data-ready signal before failing.
    pub sensor_read_timeout_ms: u64,
}

impl Default for Hardware {
    fn default() -> (h: Self)
        ensures
            h.sensor_read_timeout_ms == 150,
    {
        Hardware { sensor_read_timeout_ms: 150 }
    }
}

/// Emergency stop input settings.
#[derive(Debug, Clone, Copy)]
pub struct EstopCfg {
    /// Treat a low level as pressed.
    pub active_low: bool,
    /// Number of consecutive polls required to latch the E-stop.
    pub debounce_n: u8,
    /// Polling interval of the GPIO E-stop checker (ms).
    pub poll_ms: u64,
}

impl Default for EstopCfg {
    fn default() -> (e: Self)
        ensures
            e.active_low,
            e.debounce_n == 2,
            e.poll_ms == 5,
    {
        EstopCfg { active_low: true, debounce_n: 2, poll_ms: 5 }
    }
}

/// Default orchestration of a dose.
#[derive(Debug, Clone, Copy, PartialEq, Eq, Structural)]
pub enum RunMode {
    Sampler,
    Direct,
}

impl Default for RunMode {
    fn default() -> (m: Self)
        ensures
            m == RunMode::Sampler,
    {
        RunMode::Sampler
    }
}

/// Runner settings.
#[derive(Debug, Clone, Copy)]
pub struct RunnerCfg {
    /// Default orchestration mode.
    pub mode: RunMode,
}

impl Default for RunnerCfg {
    fn default() -> (r: Self)
        ensures
            r.mode == RunMode::Sampler,
    {
        RunnerCfg { mode: RunMode::Sampler }
    }
}

/// What validation reads of a configuration. The settings given as
/// floating-point numbers are represented by the outcome of their range
/// test (each named after the property that a valid value has, or, for the
/// sign tests, after the flaw).
#[derive(Debug, Clone, Copy)]
pub struct SettingsCheck {
    pub coarse_speed: u32,
    pub fine_speed: u32,
    /// `control.slow_at_g` has its sign bit set.
    pub slow_at_sign_negative: bool,
    /// `control.hysteresis_g` has its sign bit set.
    pub hysteresis_sign_negative: bool,
    pub stable_ms: u64,
    /// `control.epsilon_g` lies in `[0.0, 1.0]`.
    pub epsilon_in_unit_range: bool,
    /// `safety.max_overshoot_g < 0.0`.
    pub max_overshoot_below_zero: bool,
    /// `safety.no_progress_epsilon_g` lies in `(0.0, 1.0]`.
    pub no_progress_epsilon_in_range: bool,
    pub no_progress_ms: u64,
    pub ma_window: usize,
    pub median_window: usize,
    pub sample_rate_hz: u32,
    /// `filter.ema_alpha` is absent or lies in `(0.0, 1.0]`.
    pub ema_alpha_valid: bool,
    pub sample_ms: u64,
    pub sensor_read_timeout_ms: u64,
    pub debounce_n: u8,
    pub poll_ms: u64,
}

/// Every check of a configuration, in the order they are made.
pub open spec fn settings_checks(c: SettingsCheck) -> Seq<(bool, &'static str)> {
    seq![
        (c.coarse_speed == 0, "control.coarse_speed must be > 0"),
        (c.fine_speed == 0, "control.fine_speed must be > 0"),
        (c.slow_at_sign_negative, "control.slow_at_g must be >= 0"),
        (c.hysteresis_sign_negative, "control.hysteresis_g must be >= 0"),
        (c.stable_ms > 300_000, "control.stable_ms is unreasonably large (>5min)"),
        (!c.epsilon_in_unit_range, "control.epsilon_g must be in [0.0, 1.0]"),
        (c.max_overshoot_below_zero, "safety.max_overshoot_g must be >= 0.0"),
        (!c.no_progress_epsilon_in_range, "safety.no_progress_epsilon_g must be in (0.0, 1.0]"),
        (c.no_progress_ms == 0, "safety.no_progress_ms must be >= 1"),
        (c.no_progress_ms > 86_400_000, "safety.no_progress_ms is unreasonably large (>24h)"),
        (c.ma_window == 0, "filter.ma_window must be >= 1"),
        (c.median_window == 0, "filter.median_window must be >= 1"),
        (c.sample_rate_hz == 0, "filter.sample_rate_hz must be > 0"),
        (!c.ema_alpha_valid, "filter.ema_alpha must be in (0.0, 1.0]"),
        (c.sample_ms == 0, "timeouts.sample_ms must be >= 1"),
        (c.sensor_read_timeout_ms == 0, "hardware.sensor_read_timeout_ms must be >= 1"),
        (c.debounce_n == 0, "estop.debounce_n must be >= 1"),
        (c.poll_ms == 0, "estop.poll_ms must be >= 1"),
    ]
}

/// Validate a configuration: `Err` with the message of the first failing
/// check, in the order of [`settings_checks`], else `Ok`.
pub fn validate_config(c: &SettingsCheck) -> (r: Result<(), &'static str>)
    ensures
        match first_violation(settings_checks(*c)) {
            Some(m) => r == Err::<(), &'static str>(m),
            None => r is Ok,
        },
{
    proof {
        reveal_with_fuel(first_violation, 19);
    }
    if c.coarse_speed == 0 {
        return Err("control.coarse_speed must be > 0");
    }
    if c.fine_speed == 0 {
        return Err("control.fine_speed must be > 0");
    }
    if c.slow_at_sign_negative {
        return Err("control.slow_at_g must be >= 0");
    }
    if c.hysteresis_sign_negative {
        return Err("control.hysteresis_g must be >= 0");
    }
    if c.stable_ms > 300_000 {
        return Err("control.stable_ms is unreasonably large (>5min)");
    }
    if !c.epsilon_in_unit_range {
        return Err("control.epsilon_g must be in [0.0, 1.0]");
    }
    if c.max_overshoot_below_zero {
        return Err("safety.max_overshoot_g must be >= 0.0");
    }
    if !c.no_progress_epsilon_in_range {
        return Err("safety.no_progress_epsilon_g must be in (0.0, 1.0]");
    }
    if c.no_progress_ms == 0 {
        return Err("safety.no_progress_ms must be >= 1");
    }
    if c.no_progress_ms > 86_400_000 {
        return Err("safety.no_progress_ms is unreasonably large (>24h)");
    }
    if c.ma_window == 0 {
        return Err("filter.ma_window must be >= 1");
    }
    if c.median_window == 0 {
        return Err("filter.median_window must be >= 1");
    }
    if c.sample_rate_hz == 0 {
        return Err("filter.sample_rate_hz must be > 0");
    }
    if !c.ema_alpha_valid {
        return Err("filter.ema_alpha must be in (0.0, 1.0]");
    }
    if c.sample_ms == 0 {
        return Err("timeouts.sample_ms must be >= 1");
    }
    if c.sensor_read_timeout_ms == 0 {
        return Err("hardware.sensor_read_timeout_ms must be >= 1");
    }
    if c.debounce_n == 0 {
        return Err("estop.debounce_n must be >= 1");
    }
    if c.poll_ms == 0 {
        return Err("estop.poll_ms must be >= 1");
    }
    Ok(())
}


/// A configuration is refused exactly when one of its settings is outside
/// its stated range: every configuration whose settings are all in range
/// (in particular any positive sample rate) validates, and each out-of-range
/// setting makes it fail.
pub proof fn law_only_out_of_range_settings_fail(c: SettingsCheck)
    ensures
        first_violation(settings_checks(c)) is None <==> {
            &&& c.coarse_speed > 0
            &&& c.fine_speed > 0
            &&& !c.slow_at_sign_negative
            &&& !c.hysteresis_sign_negative
            &&& c.stable_ms <= 300_000
            &&& c.epsilon_in_unit_range
            &&& !c.max_overshoot_below_zero
            &&& c.no_progress_epsilon_in_range
            &&& 1 <= c.no_progress_ms <= 86_400_000
            &&& c.ma_window >= 1
            &&& c.median_window >= 1
            &&& c.sample_rate_hz >= 1
            &&& c.ema_alpha_valid
            &&& c.sample_ms >= 1
            &&& c.sensor_read_timeout_ms >= 1
            &&& c.debounce_n >= 1
            &&& c.poll_ms >= 1
        },
{
    reveal_with_fuel(first_violation, 19);
}

} // verus!
