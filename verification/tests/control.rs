//! The control loop driven step by step with a virtual clock and a motor
//! that records the commands it receives.

use doser_core::builder::{validate_and_build, BandSetting, BuildConfig, GramsSetting};
use doser_core::control::{Command, DoserCore, SpeedCmd};
use doser_core::error::{AbortReason, DoserError};
use doser_core::status::DosingStatus;

#[derive(Debug, Clone, Copy, PartialEq, Eq)]
enum Op {
    Start,
    SetSpeed(u32),
    Stop,
}

fn grams(g: f32) -> GramsSetting {
    GramsSetting {
        cg: (g * 100.0).round() as i32,
        sign_negative: g.is_sign_negative(),
    }
}

fn scaled_gain(gain_g_per_count: f32) -> i64 {
    (f64::from(gain_g_per_count) * 100.0 * 1_000_000.0).round() as i64
}

fn taper(abs_err_cg: u32, slow_at_cg: i32, fine_speed: u32) -> u32 {
    let ratio = (abs_err_cg as f32 / slow_at_cg as f32).clamp(0.0, 1.0);
    let frac = 0.2_f32 + (1.0 - 0.2_f32) * ratio;
    ((fine_speed as f32 * frac).max(1.0)) as u32
}

/// Defaults of the engine's configuration: two-speed mode, default safety,
/// 100 Hz sampling, 1 g per count, a 10 g target.
fn base_config() -> BuildConfig {
    BuildConfig {
        target_cg: 1000,
        target_in_range: true,
        hysteresis: grams(0.07),
        slow_at: grams(1.0),
        epsilon_cg: 8,
        coarse_speed: 1200,
        fine_speed: 250,
        stable_ms: 250,
        speed_bands: vec![],
        max_run_ms: 60_000,
        max_overshoot: grams(2.0),
        no_progress_epsilon: grams(0.0),
        no_progress_ms: 0,
        sensor_ms: 5,
        sample_rate_hz: 100,
        median_window: 1,
        ma_window: 1,
        ema_enabled: false,
        predictor_enabled: false,
        predictor_window: 6,
        extra_latency_ms: 20,
        zero_counts: 0,
        cal_gain_scaled: scaled_gain(1.0),
        cal_offset_cg: 0,
        estop_debounce_n: 2,
    }
}

struct Rig {
    core: DoserCore,
    seq: Vec<i32>,
    idx: usize,
    now_us: u64,
    ops: Vec<Op>,
    min_progress_ratio: f32,
    estop: Option<bool>,
}

impl Rig {
    fn new(cfg: BuildConfig, seq: Vec<i32>) -> Rig {
        let core = validate_and_build(cfg, 0).unwrap_or_else(|_| panic!("build"));
        Rig { core, seq, idx: 0, now_us: 0, ops: vec![], min_progress_ratio: 0.10, estop: None }
    }

    fn now_ms(&self) -> u64 {
        self.now_us / 1000
    }

    fn sleep(&mut self) {
        self.now_us += self.core.params().period_us;
    }

    fn step(&mut self) -> DosingStatus {
        if self.core.poll_estop_stop(self.estop) {
            self.ops.push(Op::Stop);
            return DosingStatus::Aborted(DoserError::Abort(AbortReason::Estop));
        }
        let raw = self
            .seq
            .get(self.idx)
            .copied()
            .unwrap_or_else(|| self.seq.last().copied().unwrap_or(0));
        self.idx += 1;
        let w = self.core.filter_raw(raw);
        self.process(w)
    }

    fn process(&mut self, w: i32) -> DosingStatus {
        let target = self.core.params().target_cg;
        let below = (w as f32) / (target as f32) < self.min_progress_ratio;
        let now = self.now_ms();
        let out = self.core.process_weight(w, now, below);
        match out.command {
            Command::Abort(r) => {
                self.ops.push(Op::Stop);
                DosingStatus::Aborted(DoserError::Abort(r))
            }
            Command::EarlyStop | Command::Settling => {
                self.ops.push(Op::Stop);
                self.sleep();
                DosingStatus::Running
            }
            Command::Complete => {
                self.ops.push(Op::Stop);
                DosingStatus::Complete
            }
            Command::Drive { start, speed } => {
                if start {
                    self.ops.push(Op::Start);
                    self.core.on_motor_started(now);
                }
                let sps = match speed {
                    SpeedCmd::Fixed(s) => s,
                    SpeedCmd::Taper { abs_err_cg, slow_at_cg, fine_speed } => {
                        taper(abs_err_cg, slow_at_cg, fine_speed)
                    }
                };
                self.ops.push(Op::SetSpeed(sps));
                self.sleep();
                DosingStatus::Running
            }
        }
    }
}

/// Every `set_speed` must reach a running motor.
fn assert_no_speed_while_stopped(ops: &[Op]) {
    let mut running = false;
    for op in ops {
        match op {
            Op::Start => running = true,
            Op::Stop => running = false,
            Op::SetSpeed(sps) => {
                assert!(running || *sps == 0, "set_speed({sps}) issued to a stopped motor: {ops:?}");
            }
        }
    }
}

fn count_starts(ops: &[Op]) -> usize {
    ops.iter().filter(|o| matches!(o, Op::Start)).count()
}

#[test]
fn motor_restarts_after_dip_out_of_the_settle_band() {
    // 5 -> 8 -> 10 g (enters the completion zone, motor stops), then a dip to
    // 9 g. The dose must be topped up rather than commanding speeds at a
    // stopped motor until the run fails.
    let mut rig = Rig::new(base_config(), vec![5, 8, 10, 9]);
    for _ in 0..4 {
        assert!(matches!(rig.step(), DosingStatus::Running));
    }
    let ops = rig.ops.clone();
    assert_eq!(count_starts(&ops), 2, "motor must restart after the dip: {ops:?}");
    assert_no_speed_while_stopped(&ops);
}

#[test]
fn dose_completes_after_topping_up_from_a_dip() {
    // Same dip, but the top-up brings the weight back to target and holds it.
    let mut rig = Rig::new(base_config(), vec![5, 8, 10, 9, 10]);
    let mut status = DosingStatus::Running;
    for _ in 0..64 {
        status = rig.step();
        if !matches!(status, DosingStatus::Running) {
            break;
        }
    }
    assert!(matches!(status, DosingStatus::Complete), "got {status:?}");
    let ops = rig.ops.clone();
    assert_eq!(count_starts(&ops), 2, "motor must restart after the dip: {ops:?}");
    assert_no_speed_while_stopped(&ops);
}

#[test]
fn motor_restarts_after_a_predictor_early_stop_that_plateaus_short() {
    // A rising ramp makes the predictor early-stop (its in-flight estimate
    // over-predicts), then the weight plateaus short of the 10 g target. Once
    // the slope decays to zero the predictor stops holding the motor off, and
    // the loop must restart it to finish the dose.
    let mut cfg = base_config();
    cfg.predictor_enabled = true;
    cfg.predictor_window = 6;
    cfg.extra_latency_ms = 1_000; // grossly over-estimates in-flight mass
    let mut rig = Rig::new(cfg, vec![1, 2, 3, 4, 5, 6]);
    rig.min_progress_ratio = 0.10;
    for _ in 0..24 {
        assert!(matches!(rig.step(), DosingStatus::Running));
    }
    let ops = rig.ops.clone();
    assert!(ops.contains(&Op::Stop), "predictor should have early-stopped: {ops:?}");
    assert_eq!(count_starts(&ops), 2, "motor must restart once the plateau clears the predictor: {ops:?}");
    assert_no_speed_while_stopped(&ops);
}

fn safety_rig(seq: Vec<i32>, adjust: impl FnOnce(&mut BuildConfig)) -> Rig {
    let mut cfg = base_config();
    cfg.target_cg = 1000;
    adjust(&mut cfg);
    Rig::new(cfg, seq)
}

fn run_until_done(rig: &mut Rig, limit: usize) -> DosingStatus {
    for _ in 0..limit {
        let s = rig.step();
        if !matches!(s, DosingStatus::Running) {
            return s;
        }
    }
    DosingStatus::Running
}

#[test]
fn overshoot_aborts_and_stops_the_motor() {
    // 10 g target, 0.5 g tolerance: 11 g is beyond it.
    let mut rig = safety_rig(vec![0, 11], |c| c.max_overshoot = grams(0.5));
    let status = run_until_done(&mut rig, 10);
    assert!(matches!(status, DosingStatus::Aborted(DoserError::Abort(AbortReason::Overshoot))));
    assert_eq!(rig.ops.last(), Some(&Op::Stop));
    assert!(!rig.core.motor_started());
}

#[test]
fn max_runtime_aborts_and_stops_the_motor() {
    // Never reaches the target; 50 ms cap at a 10 ms period.
    let mut rig = safety_rig(vec![0], |c| c.max_run_ms = 50);
    let status = run_until_done(&mut rig, 100);
    assert!(matches!(status, DosingStatus::Aborted(DoserError::Abort(AbortReason::MaxRuntime))));
    assert_eq!(rig.ops.last(), Some(&Op::Stop));
    // Five driven iterations (0, 10, .., 40 ms) before the cap at 50 ms.
    assert_eq!(rig.ops.iter().filter(|o| matches!(o, Op::SetSpeed(_))).count(), 5);
}

#[test]
fn no_progress_aborts_and_stops_the_motor() {
    // The weight never moves: 0.1 g epsilon, 50 ms window.
    let mut rig = safety_rig(vec![0], |c| {
        c.no_progress_epsilon = grams(0.1);
        c.no_progress_ms = 50;
    });
    let status = run_until_done(&mut rig, 100);
    assert!(matches!(status, DosingStatus::Aborted(DoserError::Abort(AbortReason::NoProgress))));
    assert_eq!(rig.ops.last(), Some(&Op::Stop));
}

#[test]
fn estop_latches_after_debounce_and_stays_latched() {
    let mut rig = safety_rig(vec![0], |c| c.estop_debounce_n = 2);
    rig.estop = Some(true);
    // First pressed reading only counts.
    assert!(matches!(rig.step(), DosingStatus::Running));
    // Second one latches.
    assert!(matches!(rig.step(), DosingStatus::Aborted(DoserError::Abort(AbortReason::Estop))));
    // Released input: still latched.
    rig.estop = Some(false);
    assert!(matches!(rig.step(), DosingStatus::Aborted(DoserError::Abort(AbortReason::Estop))));
    assert!(rig.core.estop_latched());
    // A new run clears the latch.
    rig.core.begin(0);
    assert!(!rig.core.estop_latched());
}

#[test]
fn estop_released_reading_resets_the_debounce_count() {
    let mut rig = safety_rig(vec![0], |c| c.estop_debounce_n = 2);
    rig.estop = Some(true);
    assert!(matches!(rig.step(), DosingStatus::Running));
    rig.estop = Some(false);
    assert!(matches!(rig.step(), DosingStatus::Running));
    rig.estop = Some(true);
    assert!(matches!(rig.step(), DosingStatus::Running));
    assert!(!rig.core.estop_latched());
}

#[test]
fn zero_stable_ms_completes_on_zone_entry() {
    let mut rig = safety_rig(vec![5, 10], |c| c.stable_ms = 0);
    assert!(matches!(rig.step(), DosingStatus::Running));
    assert!(matches!(rig.step(), DosingStatus::Complete));
    assert_eq!(rig.core.last_weight_cg(), 1000);
}

#[test]
fn high_reading_does_not_restart_the_settle_timer() {
    // An over-delivered dose (11 g, within the 2 g tolerance) settles and
    // completes instead of running into the run-time cap.
    let mut rig = safety_rig(vec![9, 10, 11], |c| c.stable_ms = 30);
    let status = run_until_done(&mut rig, 50);
    assert!(matches!(status, DosingStatus::Complete), "got {status:?}");
    // 9 (drive), 10 (zone, 0 ms), 11 (10 ms), 11 (20 ms), 11 (30 ms) -> complete.
    assert_eq!(rig.idx, 5);
}

#[test]
fn speed_bands_pick_the_first_reached_threshold() {
    // Bands (in grams): 1.0 -> 1100, 0.5 -> 450, 0.2 -> 200, given unsorted.
    let band = |g: f32, sps: u32| BandSetting {
        threshold_cg: (g * 100.0).round() as i32,
        threshold_finite: true,
        threshold_below_zero: false,
        sps,
    };
    let mut cfg = base_config();
    cfg.speed_bands = vec![band(0.5, 450), band(0.2, 200), band(1.0, 1100)];
    let core = validate_and_build(cfg, 0).unwrap_or_else(|_| panic!("build"));
    assert_eq!(core.params().speed_bands_cg, vec![(100, 1100), (50, 450), (20, 200)]);
    assert_eq!(core.select_speed(500), SpeedCmd::Fixed(1100));
    assert_eq!(core.select_speed(100), SpeedCmd::Fixed(1100));
    assert_eq!(core.select_speed(99), SpeedCmd::Fixed(450));
    assert_eq!(core.select_speed(50), SpeedCmd::Fixed(450));
    assert_eq!(core.select_speed(20), SpeedCmd::Fixed(200));
    // Below the lowest threshold: the slowest band.
    assert_eq!(core.select_speed(5), SpeedCmd::Fixed(200));
}

#[test]
fn two_speed_mode_tapers_inside_slow_at() {
    let core = validate_and_build(base_config(), 0).unwrap_or_else(|_| panic!("build"));
    assert_eq!(core.select_speed(500), SpeedCmd::Fixed(1200));
    assert_eq!(
        core.select_speed(50),
        SpeedCmd::Taper { abs_err_cg: 50, slow_at_cg: 100, fine_speed: 250 }
    );
    assert_eq!(taper(50, 100, 250), 150);
    assert_eq!(taper(100, 100, 250), 250);
    assert_eq!(taper(0, 100, 250), 50);
}

#[test]
fn predictor_stops_early_on_a_fast_rise() {
    let mut cfg = base_config();
    cfg.predictor_enabled = true;
    cfg.predictor_window = 2;
    cfg.extra_latency_ms = 100;
    let mut rig = Rig::new(cfg, vec![1, 5, 8]);
    rig.min_progress_ratio = 0.0;
    assert!(matches!(rig.step(), DosingStatus::Running));
    assert!(matches!(rig.step(), DosingStatus::Running));
    // 1 -> 5 g over 10 ms with 10 + 100 ms of latency: 44 g still in flight.
    assert_eq!(rig.core.last_inflight_cg(), Some(4_400));
    assert_eq!(rig.core.early_stop_at_cg(), Some(500));
    assert_eq!(rig.ops.last(), Some(&Op::Stop));
}

fn filter_core(median_window: usize, ma_window: usize, ema: bool) -> DoserCore {
    let mut cfg = base_config();
    cfg.median_window = median_window;
    cfg.ma_window = ma_window;
    cfg.ema_enabled = ema;
    cfg.cal_gain_scaled = scaled_gain(0.01); // one count is one centigram
    cfg.target_cg = 10_000;
    validate_and_build(cfg, 0).unwrap_or_else(|_| panic!("build"))
}

fn feed_all(core: &mut DoserCore, raws: &[i32]) -> Vec<i32> {
    raws.iter().map(|&r| core.filter_raw(r)).collect()
}

#[test]
fn moving_average_warms_up_over_a_partially_filled_window() {
    let mut c = filter_core(1, 4, false);
    assert_eq!(feed_all(&mut c, &[10, 20, 30, 40, 50]), vec![10, 15, 20, 25, 35]);
}

#[test]
fn moving_average_rounds_halves_away_from_zero() {
    let mut c = filter_core(1, 4, false);
    assert_eq!(feed_all(&mut c, &[1, 2, 3, 4]).last().copied(), Some(3));
    let mut c = filter_core(1, 4, false);
    assert_eq!(feed_all(&mut c, &[-1, -2, -3, -4]).last().copied(), Some(-3));
}

#[test]
fn moving_average_of_a_sum_beyond_i32_is_exact() {
    let mut c = filter_core(1, 2, false);
    assert_eq!(c.filter_raw(i32::MAX), i32::MAX);
    assert_eq!(c.filter_raw(1), 1_073_741_824);
}

#[test]
fn ema_bypasses_the_moving_average_window() {
    let mut c = filter_core(1, 4, true);
    assert_eq!(feed_all(&mut c, &[10, 20, 30, 40]), vec![10, 20, 30, 40]);
}

#[test]
fn median_even_window_averages_the_two_middle_order_statistics() {
    let mut c = filter_core(4, 1, false);
    assert_eq!(feed_all(&mut c, &[10, 20, 31, 40, 100]), vec![10, 15, 20, 26, 36]);
}

#[test]
fn median_even_window_is_independent_of_arrival_order() {
    let mut c = filter_core(4, 1, false);
    assert_eq!(feed_all(&mut c, &[40, 10, 31, 20]).last().copied(), Some(26));
}

#[test]
fn median_even_window_rounds_negative_halves_away_from_zero() {
    let mut c = filter_core(4, 1, false);
    assert_eq!(feed_all(&mut c, &[-40, -31, -20, -10]).last().copied(), Some(-26));
}

#[test]
fn median_window_of_two_averages_every_adjacent_pair() {
    let mut c = filter_core(2, 1, false);
    assert_eq!(feed_all(&mut c, &[10, 21, 20]), vec![10, 16, 21]);
}

#[test]
fn median_prefilter_feeds_the_moving_average_stage() {
    let mut c = filter_core(3, 2, false);
    assert_eq!(feed_all(&mut c, &[10, 20, 900, 30]), vec![10, 13, 18, 25]);
}

#[test]
fn calibration_applies_tare_and_offset() {
    let mut cfg = base_config();
    cfg.cal_gain_scaled = scaled_gain(0.01);
    cfg.zero_counts = 100;
    cfg.cal_offset_cg = 50;
    let mut core = validate_and_build(cfg, 0).unwrap_or_else(|_| panic!("build"));
    // At zero delta the reading is the offset (0.5 g = 50 cg).
    assert_eq!(core.to_cg_cached(100), 50);
    assert_eq!(core.to_cg_cached(223), 173);
    core.set_tare_counts(200);
    assert_eq!(core.to_cg_cached(223), 73);
}


/// The engine's control defaults without speed bands, 100 Hz pass-through
/// filtering, 1 g per count and a 5 g target.
fn hardening_rig(raw: i32, adjust: impl FnOnce(&mut BuildConfig)) -> Rig {
    let mut cfg = base_config();
    cfg.target_cg = 500;
    adjust(&mut cfg);
    Rig::new(cfg, vec![raw])
}

#[test]
fn motor_stops_on_overshoot() {
    // 10 g, well over target + overshoot.
    let mut rig = hardening_rig(10, |c| {
        c.max_run_ms = 60_000;
        c.max_overshoot = grams(1.0);
    });
    let status = run_until_done(&mut rig, 16);
    assert!(matches!(status, DosingStatus::Aborted(DoserError::Abort(AbortReason::Overshoot))), "expected Overshoot abort");
    assert!(rig.ops.contains(&Op::Stop), "motor must be stopped on overshoot");
}

#[test]
fn motor_stops_on_estop() {
    let mut rig = hardening_rig(1, |c| c.estop_debounce_n = 1);
    rig.estop = Some(true);
    let status = run_until_done(&mut rig, 16);
    assert!(matches!(status, DosingStatus::Aborted(DoserError::Abort(AbortReason::Estop))), "expected Estop abort");
    assert!(rig.ops.contains(&Op::Stop), "motor must be stopped on E-stop");
}

#[test]
fn motor_stops_on_max_runtime() {
    // Never reaches the 5 g target; 10 ms period.
    let mut rig = hardening_rig(1, |c| {
        c.max_run_ms = 50;
        c.max_overshoot = grams(2.0);
    });
    let status = run_until_done(&mut rig, 1000);
    assert!(matches!(status, DosingStatus::Aborted(DoserError::Abort(AbortReason::MaxRuntime))), "expected MaxRuntime abort");
    assert!(rig.ops.contains(&Op::Stop), "motor must be stopped on max-runtime");
}

#[test]
fn motor_stops_on_no_progress() {
    // Registers once, then never changes.
    let mut rig = hardening_rig(1, |c| {
        c.max_run_ms = 10_000;
        c.max_overshoot = grams(2.0);
        c.no_progress_epsilon = grams(0.05);
        c.no_progress_ms = 50;
    });
    let status = run_until_done(&mut rig, 1000);
    assert!(matches!(status, DosingStatus::Aborted(DoserError::Abort(AbortReason::NoProgress))), "expected NoProgress abort");
    assert!(rig.ops.contains(&Op::Stop), "motor must be stopped on no-progress");
}

#[test]
fn settling_above_the_band_but_within_overshoot_completes() {
    // Target 5.00 g; band max(0.07, 0.08) g tops out at 5.08 g; the scale
    // settles at 5.10 g, inside the 0.60 g overshoot cap. 0.01 g per count.
    let band = |g: f32, sps: u32| BandSetting {
        threshold_cg: (g * 100.0).round() as i32,
        threshold_finite: true,
        threshold_below_zero: false,
        sps,
    };
    let mut cfg = base_config();
    cfg.target_cg = 500;
    cfg.sample_rate_hz = 50;
    cfg.stable_ms = 100;
    cfg.epsilon_cg = 8;
    cfg.hysteresis = grams(0.07);
    cfg.max_overshoot = grams(0.6);
    cfg.speed_bands = vec![band(1.0, 1100), band(0.5, 450), band(0.2, 200)];
    cfg.cal_gain_scaled = scaled_gain(0.01);
    let mut rig = Rig::new(cfg, vec![400, 490, 510]);
    let status = run_until_done(&mut rig, 64);
    assert!(matches!(status, DosingStatus::Complete), "got {status:?}");
    assert_eq!(rig.core.last_weight_cg(), 510);
}

#[test]
fn overshoot_abort_is_bounded_to_one_sample() {
    // 1 cg per count; a 20 cg ramp whose last sample below the zone sits
    // 9 cg short of the 129 cg target: the next sample clears the overshoot
    // line (129 + 10) in one jump and aborts right there.
    let mut cfg = base_config();
    cfg.target_cg = 129;
    cfg.epsilon_cg = 8;
    cfg.max_overshoot = grams(0.10);
    cfg.stable_ms = 0;
    cfg.sample_rate_hz = 500;
    cfg.cal_gain_scaled = scaled_gain(0.01);
    let ramp: Vec<i32> = (1..=10).map(|k| 20 * k).collect();
    let mut rig = Rig::new(cfg, ramp);
    let status = run_until_done(&mut rig, 100);
    assert!(matches!(status, DosingStatus::Aborted(DoserError::Abort(AbortReason::Overshoot))), "got {status:?}");
    let final_cg = rig.core.last_weight_cg();
    assert_eq!(final_cg, 129 - 9 + 20);
    assert!(final_cg > 129 + 10);
    assert!(final_cg < 129 - 8 + 20);
}

#[test]
fn completion_lands_inside_the_acceptance_window() {
    let mut cfg = base_config();
    cfg.target_cg = 129;
    cfg.epsilon_cg = 8;
    cfg.max_overshoot = grams(0.10);
    cfg.stable_ms = 0;
    cfg.cal_gain_scaled = scaled_gain(0.01);
    let mut rig = Rig::new(cfg, vec![100, 110, 125]);
    let status = run_until_done(&mut rig, 100);
    assert!(matches!(status, DosingStatus::Complete), "got {status:?}");
    let w = rig.core.last_weight_cg();
    assert!((129 - 8..=129 + 10).contains(&w));
}

/// 0.01 g per count, 10 g target, 0.05 g epsilon, 50 Hz, the default bands,
/// immediate completion; the predictor over 4 samples with 40 ms of extra
/// latency. A 50 cg-per-sample ramp.
fn predictor_rig(enabled: bool) -> Rig {
    let band = |g: f32, sps: u32| BandSetting {
        threshold_cg: (g * 100.0).round() as i32,
        threshold_finite: true,
        threshold_below_zero: false,
        sps,
    };
    let mut cfg = base_config();
    cfg.target_cg = 1000;
    cfg.epsilon_cg = 5;
    cfg.stable_ms = 0;
    cfg.sample_rate_hz = 50;
    cfg.speed_bands = vec![band(1.0, 1100), band(0.5, 450), band(0.2, 200)];
    cfg.cal_gain_scaled = scaled_gain(0.01);
    cfg.predictor_enabled = enabled;
    cfg.predictor_window = 4;
    cfg.extra_latency_ms = 40;
    let mut rig = Rig::new(cfg, (1..=24).map(|k| 50 * k).collect());
    rig.min_progress_ratio = 0.02;
    rig
}

#[test]
fn early_stop_triggers_before_target_cross() {
    // Latency 20 + 40 ms; slope 150 cg over 60 ms; 150 cg in flight: the
    // first sample with w + 150 + 5 >= 1000 is the 17th (850 cg).
    let mut rig = predictor_rig(true);
    let mut stopped_at = None;
    for k in 1..=24 {
        let status = rig.step();
        assert!(matches!(status, DosingStatus::Running), "step {k}: {status:?}");
        if rig.ops.contains(&Op::Stop) {
            stopped_at = Some(k);
            break;
        }
    }
    assert_eq!(stopped_at, Some(17));
    assert_eq!(rig.core.last_weight_cg(), 850);
    assert!(rig.core.last_weight_cg() < 1000 - 5);
    assert_eq!(rig.core.early_stop_at_cg(), Some(850));
    assert_eq!(rig.core.last_inflight_cg(), Some(150));
    assert_no_speed_while_stopped(&rig.ops);
}

#[test]
fn predictor_disabled_never_stops_early() {
    let mut rig = predictor_rig(false);
    for k in 1..=19 {
        let status = rig.step();
        assert!(matches!(status, DosingStatus::Running), "step {k}: {status:?}");
    }
    assert!(!rig.ops.contains(&Op::Stop));
    assert_eq!(rig.core.early_stop_at_cg(), None);
    assert_eq!(rig.core.last_inflight_cg(), None);
    assert!(matches!(rig.step(), DosingStatus::Complete));
    assert!(rig.ops.contains(&Op::Stop));
    assert_eq!(rig.core.early_stop_at_cg(), None);
}

#[test]
fn band_selection_matches_thresholds() {
    // Default bands, 0.1 g per count, 10 g target: the speed of the first
    // step at each weight.
    let band = |g: f32, sps: u32| BandSetting {
        threshold_cg: (g * 100.0).round() as i32,
        threshold_finite: true,
        threshold_below_zero: false,
        sps,
    };
    let check = |current_g: f32, expect_sps: u32| {
        let mut cfg = base_config();
        cfg.sample_rate_hz = 50;
        cfg.speed_bands = vec![band(1.0, 1100), band(0.5, 450), band(0.2, 200)];
        cfg.cal_gain_scaled = scaled_gain(0.1);
        let raw = (current_g * 10.0).round() as i32;
        let mut rig = Rig::new(cfg, vec![raw]);
        assert!(matches!(rig.step(), DosingStatus::Running), "current_g={current_g}");
        assert_eq!(rig.ops.last(), Some(&Op::SetSpeed(expect_sps)), "current_g={current_g}");
    };
    check(8.8, 1100);
    check(9.3, 450);
    check(9.7, 200);
    check(9.9, 200);
}

#[test]
fn estop_bounce_does_not_trip_with_debounce_n3() {
    let mut rig = safety_rig(vec![0], |c| c.estop_debounce_n = 3);
    for pressed in [true, false, true, false, true] {
        rig.estop = Some(pressed);
        assert!(matches!(rig.step(), DosingStatus::Running), "should not trip");
    }
}

#[test]
fn estop_long_press_trips_and_latches_until_begin() {
    let mut rig = safety_rig(vec![0], |c| c.estop_debounce_n = 3);
    rig.estop = Some(true);
    assert!(matches!(rig.step(), DosingStatus::Running));
    assert!(matches!(rig.step(), DosingStatus::Running));
    assert!(matches!(rig.step(), DosingStatus::Aborted(DoserError::Abort(AbortReason::Estop))));
    assert!(matches!(rig.step(), DosingStatus::Aborted(DoserError::Abort(AbortReason::Estop))));
    rig.core.begin(rig.now_ms());
    rig.estop = Some(false);
    assert!(matches!(rig.step(), DosingStatus::Running));
}

#[test]
fn overshoot_epsilon_regression() {
    // 12 cg per sample against a 500 cg target with a 3 cg overshoot limit.
    let run = |epsilon_cg: i32| {
        let band = |g: f32, sps: u32| BandSetting {
            threshold_cg: (g * 100.0).round() as i32,
            threshold_finite: true,
            threshold_below_zero: false,
            sps,
        };
        let mut cfg = base_config();
        cfg.target_cg = 500;
        cfg.epsilon_cg = epsilon_cg;
        cfg.stable_ms = 0;
        cfg.sample_rate_hz = 50;
        cfg.max_run_ms = 5_000;
        cfg.max_overshoot = grams(0.03);
        cfg.speed_bands = vec![band(1.0, 1100), band(0.5, 450), band(0.2, 200)];
        cfg.cal_gain_scaled = scaled_gain(0.01);
        let mut rig = Rig::new(cfg, (0..=60).map(|k| 12 * k).collect());
        let status = run_until_done(&mut rig, 200);
        (status, rig)
    };
    // Epsilon 0: 492 is below the zone, 504 > 503 aborts.
    let (status, rig) = run(0);
    assert!(matches!(status, DosingStatus::Aborted(DoserError::Abort(AbortReason::Overshoot))), "got {status:?}");
    assert_eq!(rig.core.last_weight_cg(), 504);
    assert!(rig.ops.contains(&Op::Stop));
    // Epsilon 8: the zone opens at 492, which completes one sample earlier.
    let (status, rig) = run(8);
    assert!(matches!(status, DosingStatus::Complete), "got {status:?}");
    assert_eq!(rig.core.last_weight_cg(), 492);
    assert!(rig.ops.contains(&Op::Stop));
}
