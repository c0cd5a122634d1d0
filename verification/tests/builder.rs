//! Validating a configuration and building the controller from it.

use doser_core::builder::{required_parts, validate_and_build, BandSetting, BuildConfig, GramsSetting};
use doser_core::error::BuildError;

fn grams(g: f32) -> GramsSetting {
    GramsSetting { cg: (g * 100.0).round() as i32, sign_negative: g.is_sign_negative() }
}

fn band(threshold_g: f32, sps: u32) -> BandSetting {
    BandSetting {
        threshold_cg: (threshold_g * 100.0).round() as i32,
        threshold_finite: threshold_g.is_finite(),
        threshold_below_zero: threshold_g < 0.0,
        sps,
    }
}

/// The engine's defaults, a 5 g target.
fn config() -> BuildConfig {
    BuildConfig {
        target_cg: 500,
        target_in_range: true,
        hysteresis: grams(0.07),
        slow_at: grams(1.0),
        epsilon_cg: 8,
        coarse_speed: 1200,
        fine_speed: 250,
        stable_ms: 250,
        speed_bands: vec![band(1.0, 1100), band(0.5, 450), band(0.2, 200)],
        max_run_ms: 60_000,
        max_overshoot: grams(2.0),
        no_progress_epsilon: grams(0.0),
        no_progress_ms: 0,
        sensor_ms: 5,
        sample_rate_hz: 50,
        median_window: 5,
        ma_window: 5,
        ema_enabled: false,
        predictor_enabled: false,
        predictor_window: 6,
        extra_latency_ms: 20,
        zero_counts: 0,
        cal_gain_scaled: 1_000_000,
        cal_offset_cg: 0,
        estop_debounce_n: 2,
    }
}

fn invalid(cfg: BuildConfig) -> &'static str {
    match validate_and_build(cfg, 0) {
        Err(BuildError::InvalidConfig(m)) => m,
        Err(e) => panic!("unexpected error {e:?}"),
        Ok(_) => panic!("expected an invalid configuration"),
    }
}

#[test]
fn builder_rejects_negative_no_progress_epsilon() {
    let mut cfg = config();
    cfg.no_progress_epsilon = grams(-0.1);
    cfg.sample_rate_hz = 50;
    let err = validate_and_build(cfg, 0).map(|_| ()).expect_err("expected invalid config");
    let s = err.to_string();
    assert!(s.contains("no_progress_epsilon_g must be >= 0"));
}

#[test]
fn each_build_check_has_its_message() {
    assert_eq!(invalid(BuildConfig { target_in_range: false, ..config() }), "target grams out of range");
    assert_eq!(invalid(BuildConfig { hysteresis: grams(-0.0), ..config() }), "hysteresis_g must be >= 0");
    assert_eq!(invalid(BuildConfig { slow_at: grams(-1.0), ..config() }), "slow_at_g must be >= 0");
    assert_eq!(invalid(BuildConfig { fine_speed: 0, ..config() }), "motor speeds must be > 0");
    assert_eq!(invalid(BuildConfig { sensor_ms: 0, ..config() }), "sensor_ms must be >= 1");
    assert_eq!(invalid(BuildConfig { max_overshoot: grams(-2.0), ..config() }), "max_overshoot_g must be >= 0");
    assert_eq!(invalid(BuildConfig { sample_rate_hz: 0, ..config() }), "sample_rate_hz must be > 0");
    assert_eq!(
        invalid(BuildConfig { speed_bands: vec![band(f32::NAN, 10)], ..config() }),
        "speed band threshold must be finite"
    );
    assert_eq!(invalid(BuildConfig { speed_bands: vec![band(-1.0, 10)], ..config() }), "speed band threshold must be >= 0");
    assert_eq!(invalid(BuildConfig { speed_bands: vec![band(1.0, 0)], ..config() }), "speed band speed must be > 0");
}

#[test]
fn the_first_failing_check_wins() {
    assert_eq!(
        invalid(BuildConfig { target_in_range: false, sample_rate_hz: 0, ..config() }),
        "target grams out of range"
    );
}

#[test]
fn bands_are_sorted_by_descending_threshold_stably() {
    let cfg = BuildConfig {
        speed_bands: vec![band(0.2, 200), band(1.0, 1100), band(0.5, 450), band(0.5, 400)],
        ..config()
    };
    let core = validate_and_build(cfg, 0).unwrap_or_else(|_| panic!("build"));
    assert_eq!(core.params().speed_bands_cg, vec![(100, 1100), (50, 450), (50, 400), (20, 200)]);
}

#[test]
fn built_parameters_follow_the_configuration() {
    let core = validate_and_build(config(), 0).unwrap_or_else(|_| panic!("build"));
    let p = core.params();
    assert_eq!(p.target_cg, 500);
    assert_eq!(p.period_us, 20_000);
    // One 20 ms period plus 20 ms of extra latency.
    assert_eq!(p.pred_latency_ms, 40);
    assert_eq!(p.hysteresis_cg, 7);
    assert!(!core.motor_started());
}

#[test]
fn required_parts_are_checked_in_order() {
    assert!(matches!(required_parts(false, false, false), Err(BuildError::MissingScale)));
    assert!(matches!(required_parts(true, false, false), Err(BuildError::MissingMotor)));
    assert!(matches!(required_parts(true, true, false), Err(BuildError::MissingTarget)));
    assert!(required_parts(true, true, true).is_ok());
}
