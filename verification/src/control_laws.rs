//! Properties of the control loop that hold of every state and every input.

use vstd::prelude::*;

use crate::control::{
    sat_sub, spec_begin, spec_estop, spec_filter, spec_select_speed, spec_step, speed_positive, Command,
    CoreParams, CoreState,
};
use crate::error::AbortReason;
use crate::filter::{i32_le, push_window, sorted_window, spec_median};
use crate::fixed_point::law_avg2_symmetric_and_between;
use crate::control::{spec_predict, window_cap, SpeedCmd};
use crate::filter::{seq_sum, spec_mean};
use crate::fixed_point::saturate_i32;

verus! {

/// Every command but a drive stops the motor: after an abort, an early stop,
/// a settling iteration or a completion the state records the motor stopped.
pub proof fn law_non_drive_commands_stop_the_motor(
    p: CoreParams,
    s: CoreState,
    w: i32,
    now: u64,
    below_min_progress: bool,
)
    ensures
        !(spec_step(p, s, w, now, below_min_progress).1.command is Drive)
            ==> !spec_step(p, s, w, now, below_min_progress).0.motor_started,
{
}

/// A speed is only ever set on a running motor: a drive command asks for a
/// start exactly when the motor is not running, so a motor stopped by any
/// earlier iteration (completion zone, predictor, abort) is restarted before
/// it is given a speed.
pub proof fn law_drive_starts_a_stopped_motor(
    p: CoreParams,
    s: CoreState,
    w: i32,
    now: u64,
    below_min_progress: bool,
)
    ensures
        ({
            let (s2, out) = spec_step(p, s, w, now, below_min_progress);
            match out.command {
                Command::Drive { start, speed } => start == !s2.motor_started && s2.motor_started
                    == s.motor_started,
                _ => true,
            }
        }),
{
}

/// The run-time cap: once `max_run_ms` have passed since the run began, the
/// iteration aborts with `MaxRuntime` whatever the weight.
pub proof fn law_runtime_cap(p: CoreParams, s: CoreState, w: i32, now: u64, below_min_progress: bool)
    requires
        sat_sub(now, s.start_ms) >= p.max_run_ms,
    ensures
        spec_step(p, s, w, now, below_min_progress).1.command == Command::Abort(AbortReason::MaxRuntime),
        !spec_step(p, s, w, now, below_min_progress).0.motor_started,
{
}

/// The overshoot guard: within the run-time cap, a weight beyond the target
/// by more than `max_overshoot` aborts with `Overshoot` and stops the motor.
pub proof fn law_overshoot_aborts(p: CoreParams, s: CoreState, w: i32, now: u64, below_min_progress: bool)
    requires
        sat_sub(now, s.start_ms) < p.max_run_ms,
        w > p.target_cg + p.max_overshoot_cg,
    ensures
        spec_step(p, s, w, now, below_min_progress).1.command == Command::Abort(AbortReason::Overshoot),
        !spec_step(p, s, w, now, below_min_progress).0.motor_started,
{
}

/// Completion is only declared inside the completion zone, within the
/// overshoot tolerance, and after the settle timer has held for `stable_ms`.
pub proof fn law_complete_only_when_settled(
    p: CoreParams,
    s: CoreState,
    w: i32,
    now: u64,
    below_min_progress: bool,
)
    ensures
        ({
            let (s2, out) = spec_step(p, s, w, now, below_min_progress);
            out.command == Command::Complete ==> {
                &&& w + p.epsilon_cg >= p.target_cg
                &&& w <= p.target_cg + p.max_overshoot_cg
                &&& sat_sub(now, s.start_ms) < p.max_run_ms
                &&& s2.settled_since_ms is Some
                &&& sat_sub(now, s2.settled_since_ms->0) >= p.stable_ms
                &&& !s2.motor_started
            }
        }),
{
}

/// With `stable_ms == 0` a dose completes as soon as a reading enters the
/// completion zone (unless a safety guard or the predictor acts first).
pub proof fn law_zero_stable_ms_completes_on_zone_entry(
    p: CoreParams,
    s: CoreState,
    w: i32,
    now: u64,
    below_min_progress: bool,
)
    requires
        p.stable_ms == 0,
        !p.predictor_enabled,
        sat_sub(now, s.start_ms) < p.max_run_ms,
        w <= p.target_cg + p.max_overshoot_cg,
        w + p.epsilon_cg >= p.target_cg,
    ensures
        spec_step(p, s, w, now, below_min_progress).1.command == Command::Complete,
{
}

/// A reading at or above the target never restarts the settle timer: an
/// over-delivered dose (the motor is already stopped, mass cannot be taken
/// back) keeps settling instead of livelocking until the run-time cap.
pub proof fn law_high_reading_keeps_settle_timer(
    p: CoreParams,
    s: CoreState,
    w: i32,
    now: u64,
    below_min_progress: bool,
    since: u64,
)
    requires
        s.settled_since_ms == Some(since),
        !p.predictor_enabled,
        sat_sub(now, s.start_ms) < p.max_run_ms,
        p.target_cg <= w <= p.target_cg + p.max_overshoot_cg,
        w + p.epsilon_cg >= p.target_cg,
    ensures
        spec_step(p, s, w, now, below_min_progress).0.settled_since_ms == Some(since),
        sat_sub(now, since) >= p.stable_ms ==> spec_step(p, s, w, now, below_min_progress).1.command
            == Command::Complete,
{
}

/// A reading below the completion zone clears the settle timer, so the dose
/// is topped up and settling starts over.
pub proof fn law_leaving_zone_clears_settle_timer(
    p: CoreParams,
    s: CoreState,
    w: i32,
    now: u64,
    below_min_progress: bool,
)
    requires
        w + p.epsilon_cg < p.target_cg,
    ensures
        ({
            let (s2, out) = spec_step(p, s, w, now, below_min_progress);
            out.command is Drive ==> s2.settled_since_ms is None
        }),
{
}

/// The predictor only stops early after the weight rose over its window:
/// an early stop always carries a slope sample with a positive rise over a
/// positive interval.
pub proof fn law_early_stop_needs_a_rise(
    p: CoreParams,
    s: CoreState,
    w: i32,
    now: u64,
    below_min_progress: bool,
)
    ensures
        ({
            let out = spec_step(p, s, w, now, below_min_progress).1;
            out.command == Command::EarlyStop ==> {
                &&& p.predictor_enabled
                &&& out.slope_sample is Some
                &&& out.slope_sample->0.rise_cg > 0
                &&& out.slope_sample->0.elapsed_ms > 0
            }
        }),
{
}

/// The no-progress watchdog: with the watchdog enabled and the motor to be
/// driven, a weight that stayed within `no_progress_epsilon` of the last
/// progress point for `no_progress_ms` aborts with `NoProgress`.
pub proof fn law_no_progress_aborts(
    p: CoreParams,
    s: CoreState,
    w: i32,
    now: u64,
    below_min_progress: bool,
)
    requires
        !p.predictor_enabled,
        sat_sub(now, s.start_ms) < p.max_run_ms,
        w <= p.target_cg + p.max_overshoot_cg,
        w + p.epsilon_cg < p.target_cg,
        p.no_progress_ms > 0,
        p.no_progress_epsilon_cg > 0,
        speed_positive(spec_select_speed(p, p.target_cg - w)),
        crate::fixed_point::abs_diff(w as int, s.last_progress_cg as int) < p.no_progress_epsilon_cg,
        sat_sub(now, s.last_progress_at_ms) >= p.no_progress_ms,
    ensures
        spec_step(p, s, w, now, below_min_progress).1.command == Command::Abort(AbortReason::NoProgress),
        !spec_step(p, s, w, now, below_min_progress).0.motor_started,
{
}

/// The no-progress watchdog counts only while the motor is driven: it
/// aborts only on a reading below the completion zone, and only once
/// `no_progress_ms` have passed since the last progress point, which every
/// (re)start of the motor moves to the time of the start.
pub proof fn law_no_progress_counts_only_while_driving(
    p: CoreParams,
    s: CoreState,
    w: i32,
    now: u64,
    started_at: u64,
    below_min_progress: bool,
)
    ensures
        spec_step(p, s, w, now, below_min_progress).1.command == Command::Abort(AbortReason::NoProgress)
            ==> {
            &&& p.no_progress_ms > 0
            &&& w + p.epsilon_cg < p.target_cg
            &&& sat_sub(now, s.last_progress_at_ms) >= p.no_progress_ms
        },
        ({
            let restarted = CoreState {
                motor_started: true,
                last_progress_cg: s.last_weight_cg,
                last_progress_at_ms: started_at,
                ..s
            };
            sat_sub(now, started_at) < p.no_progress_ms ==> spec_step(
                p,
                restarted,
                w,
                now,
                below_min_progress,
            ).1.command != Command::Abort(AbortReason::NoProgress)
        }),
{
}

/// Whichever way an iteration ends a dose, the weight is where that ending
/// says it is: a completion lies in the acceptance window between the zone
/// entry (`target - epsilon`) and the overshoot limit; an overshoot abort
/// lies strictly past the limit; a no-progress abort lies below the zone.
pub proof fn law_terminal_weight_matches_the_terminating_condition(
    p: CoreParams,
    s: CoreState,
    w: i32,
    now: u64,
    below_min_progress: bool,
)
    ensures
        ({
            let c = spec_step(p, s, w, now, below_min_progress).1.command;
            &&& c == Command::Complete ==> p.target_cg - p.epsilon_cg <= w <= p.target_cg + p.max_overshoot_cg
            &&& c == Command::Abort(AbortReason::Overshoot) ==> w > p.target_cg + p.max_overshoot_cg
            &&& c == Command::Abort(AbortReason::NoProgress) ==> w < p.target_cg - p.epsilon_cg
        }),
{
}

/// An overshoot abort carries the weight at most one sample step past the
/// zone entry: when an iteration drove the motor at weight `w1` and the next
/// reading `w2` rose by at most `step`, an overshoot abort on `w2` lies below
/// `target - epsilon + step`.
pub proof fn law_overshoot_abort_is_bounded_to_one_sample(
    p: CoreParams,
    s: CoreState,
    w1: i32,
    t1: u64,
    w2: i32,
    t2: u64,
    step: int,
    below1: bool,
    below2: bool,
)
    requires
        spec_step(p, s, w1, t1, below1).1.command is Drive,
        w2 <= w1 + step,
    ensures
        spec_step(p, spec_step(p, s, w1, t1, below1).0, w2, t2, below2).1.command == Command::Abort(
            AbortReason::Overshoot,
        ) ==> p.target_cg + p.max_overshoot_cg < w2 < p.target_cg - p.epsilon_cg + step,
{
}

/// The predictor's early stop. Disabled, it changes nothing and never
/// stops. When it stops, it is enabled, the weight is not below the minimum
/// progress ratio (for a positive target), its window holds at least two
/// samples with the weight risen above the oldest, the weight plus the
/// in-flight estimate plus epsilon (each sum saturating) reaches the
/// target, the motor is recorded stopped and the stop weight is recorded.
/// When it does not stop, the motor state and the recorded stop weight are
/// unchanged.
pub proof fn law_predictor_early_stop(p: CoreParams, s: CoreState, now: u64, w: i32, below_min_progress: bool)
    ensures
        ({
            let (s1, early, slope) = spec_predict(p, s, now, w, below_min_progress);
            &&& !p.predictor_enabled ==> s1 == s && !early && slope is None
            &&& early ==> {
                &&& p.predictor_enabled
                &&& !(p.target_cg > 0 && below_min_progress)
                &&& s1.pred_hist.len() >= 2
                &&& w > s1.pred_hist[0].1
                &&& s1.last_inflight_cg is Some
                &&& saturate_i32(saturate_i32(w + s1.last_inflight_cg->0) + p.epsilon_cg) >= p.target_cg
                &&& !s1.motor_started
                &&& s1.early_stop_at_cg == Some(w)
            }
            &&& !early ==> s1.motor_started == s.motor_started && s1.early_stop_at_cg == s.early_stop_at_cg
        }),
{
}


/// Progress moves the no-progress reference point: after a driven iteration
/// whose weight moved at least `no_progress_epsilon` away from the last
/// progress point, the progress point is that weight at that time (and a
/// smaller move leaves it where it was). So once a feeder jams, a weight
/// that stays within `no_progress_epsilon` of where it stopped for
/// `no_progress_ms` aborts with `NoProgress`, whatever movement came before.
pub proof fn law_progress_moves_the_reference_point(
    p: CoreParams,
    s: CoreState,
    w: i32,
    now: u64,
    w2: i32,
    now2: u64,
    below1: bool,
    below2: bool,
)
    requires
        p.no_progress_ms > 0,
        p.no_progress_epsilon_cg > 0,
        speed_positive(spec_select_speed(p, p.target_cg - w)),
        spec_step(p, s, w, now, below1).1.command is Drive,
    ensures
        ({
            let s1 = spec_step(p, s, w, now, below1).0;
            let moved = if w >= s.last_progress_cg {
                w - s.last_progress_cg
            } else {
                s.last_progress_cg - w
            };
            &&& moved >= p.no_progress_epsilon_cg ==> s1.last_progress_cg == w && s1.last_progress_at_ms
                == now
            &&& moved < p.no_progress_epsilon_cg ==> s1.last_progress_cg == s.last_progress_cg
                && s1.last_progress_at_ms == s.last_progress_at_ms
            &&& (moved >= p.no_progress_epsilon_cg && !p.predictor_enabled && now2 >= now
                + p.no_progress_ms && sat_sub(now2, s.start_ms) < p.max_run_ms && w2 + p.epsilon_cg
                < p.target_cg && w2 <= p.target_cg + p.max_overshoot_cg && speed_positive(spec_select_speed(p, p.target_cg - w2)) && (if w2 >= w {
                w2 - w
            } else {
                w - w2
            }) < p.no_progress_epsilon_cg) ==> spec_step(p, s1, w2, now2, below2).1.command
                == Command::Abort(AbortReason::NoProgress)
        }),
{
    let s0 = CoreState { last_weight_cg: w, ..s };
    let (sp, early, slope) = spec_predict(p, s0, now, w, below1);
    assert(sp.last_progress_cg == s.last_progress_cg);
    assert(sp.last_progress_at_ms == s.last_progress_at_ms);
    assert(sp.start_ms == s.start_ms);
    let s1 = spec_step(p, s, w, now, below1).0;
    assert(s1.start_ms == s.start_ms);
    let moved = if w >= s.last_progress_cg {
        w - s.last_progress_cg
    } else {
        s.last_progress_cg - w
    };
    if moved >= p.no_progress_epsilon_cg {
        assert(s1.last_progress_cg == w && s1.last_progress_at_ms == now);
        if !p.predictor_enabled && now2 >= now + p.no_progress_ms && sat_sub(now2, s.start_ms)
            < p.max_run_ms && w2 + p.epsilon_cg < p.target_cg && w2 <= p.target_cg + p.max_overshoot_cg
            && speed_positive(spec_select_speed(p, p.target_cg - w2)) && (if w2 >= w {
            w2 - w
        } else {
            w - w2
        }) < p.no_progress_epsilon_cg {
            law_no_progress_aborts(p, s1, w2, now2, below2);
        }
    }
}

/// The first filtered sample of a run is the sample itself: beginning a run
/// empties the median and moving-average windows, so nothing of an earlier
/// run reaches the filter output.
pub proof fn law_begin_clears_the_filter(p: CoreParams, s: CoreState, now: u64, x: i32)
    ensures
        spec_begin(s, now).med_buf.len() == 0,
        spec_begin(s, now).ma_buf.len() == 0,
        spec_filter(p, spec_begin(s, now), x).1 == x,
{
    let b = spec_begin(s, now);
    let one = seq![x];
    assert(b.med_buf.push(x) =~= one);
    assert(b.ma_buf.push(x) =~= one);
    law_median_within_window(one);
    assert(spec_median(one) == x);
    assert(one.drop_last() =~= Seq::<i32>::empty());
    assert(seq_sum(Seq::<i32>::empty()) == 0);
    assert(seq_sum(one) == seq_sum(one.drop_last()) + one.last());
    assert(seq_sum(one) == x);
    assert(spec_mean(one) == x) by {
        assert((x + 1int / 2) / 1 == x);
        assert((-x + 1int / 2) / 1 == -x);
    }
}

/// The median prefilter runs whatever smoothing follows it: with the
/// exponential moving average enabled and a median window of more than one
/// sample, the filter's output (before the caller's smoothing) is the median
/// of the last `median_window` samples, and only the median window changes.
pub proof fn law_median_precedes_the_ema(p: CoreParams, s: CoreState, x: i32)
    requires
        p.ema_enabled,
        p.median_window > 1,
    ensures
        spec_filter(p, s, x).1 == spec_median(push_window(s.med_buf, x, p.median_window as int)),
        spec_filter(p, s, x).0.med_buf == push_window(s.med_buf, x, p.median_window as int),
        spec_filter(p, s, x).0.ma_buf == s.ma_buf,
{
}

/// Two-speed mode (no speed table): within `slow_at` of the target the fine
/// speed tapers by the error; beyond it (or with no positive `slow_at`) the
/// motor runs at the coarse speed.
pub proof fn law_two_speed_selection(p: CoreParams, err: int)
    requires
        p.speed_bands_cg@.len() == 0,
    ensures
        ({
            let a = if err >= 0 { err } else { -err };
            &&& (p.slow_at_cg > 0 && a <= p.slow_at_cg) ==> spec_select_speed(p, err) == SpeedCmd::Taper {
                abs_err_cg: a as u32,
                slow_at_cg: p.slow_at_cg,
                fine_speed: p.fine_speed,
            }
            &&& (p.slow_at_cg <= 0 || a > p.slow_at_cg) ==> spec_select_speed(p, err) == SpeedCmd::Fixed(
                p.coarse_speed,
            )
        }),
{
}

/// The E-stop latch is sticky: a latched gate answers `true` whatever the
/// input reads, and neither the filter nor a control step unlatches it; only
/// the start of a new run does.
pub proof fn law_estop_latch_is_sticky(
    p: CoreParams,
    s: CoreState,
    pressed: Option<bool>,
    x: i32,
    w: i32,
    now: u64,
    below_min_progress: bool,
)
    requires
        s.estop_latched,
    ensures
        spec_estop(p, s, pressed).1,
        spec_estop(p, s, pressed).0.estop_latched,
        !spec_estop(p, s, pressed).0.motor_started,
        spec_filter(p, s, x).0.estop_latched,
        spec_step(p, s, w, now, below_min_progress).0.estop_latched,
        !spec_begin(s, now).estop_latched,
{
}

/// E-stop debounce: from a released input, a pressed reading latches the
/// gate exactly when the debounce count is 1 (or 0), and a released reading
/// resets the count.
pub proof fn law_estop_debounce(p: CoreParams, s: CoreState)
    requires
        !s.estop_latched,
        s.estop_count == 0,
    ensures
        spec_estop(p, s, Some(true)).1 <==> p.estop_debounce_n <= 1,
        spec_estop(p, s, Some(false)).0.estop_count == 0,
        !spec_estop(p, s, Some(false)).1,
        !spec_estop(p, s, None).1,
{
}

/// A rolling window never holds more samples than its capacity.
pub proof fn law_window_is_bounded<T>(buf: Seq<T>, x: T, cap: int)
    requires
        cap >= 1,
        buf.len() <= cap,
    ensures
        push_window(buf, x, cap).len() <= cap,
        push_window(buf, x, cap).last() == x,
{
}

/// With no median and no moving-average window (and no EMA), the filter
/// passes every sample through unchanged and keeps no history.
pub proof fn law_filter_passthrough(p: CoreParams, s: CoreState, x: i32)
    requires
        window_cap(p.median_window) == 1,
        window_cap(p.ma_window) == 1,
    ensures
        spec_filter(p, s, x).1 == x,
        spec_filter(p, s, x).0 == s,
{
}

/// The filter windows never grow beyond their capacities.
pub proof fn law_filter_windows_bounded(p: CoreParams, s: CoreState, x: i32)
    requires
        s.med_buf.len() <= window_cap(p.median_window),
        s.ma_buf.len() <= window_cap(p.ma_window),
    ensures
        spec_filter(p, s, x).0.med_buf.len() <= window_cap(p.median_window),
        spec_filter(p, s, x).0.ma_buf.len() <= window_cap(p.ma_window),
{
}

/// The median of a non-empty window lies between two of its samples: it
/// never leaves the range of the window, so a spike cannot pass it unless
/// it holds the middle of the window.
pub proof fn law_median_within_window(w: Seq<i32>)
    requires
        w.len() > 0,
    ensures
        exists|i: int, j: int|
            #![trigger w[i], w[j]]
            0 <= i < w.len() && 0 <= j < w.len() && w[i] <= spec_median(w) <= w[j],
{
    broadcast use vstd::seq_lib::group_to_multiset_ensures;

    assert(vstd::relations::total_ordering(i32_le()));
    w.lemma_sort_by_ensures(i32_le());
    let t = sorted_window(w);
    vstd::seq_lib::to_multiset_len(t);
    vstd::seq_lib::to_multiset_len(w);
    let mid = (t.len() / 2) as int;
    let lo = if t.len() % 2 == 0 {
        mid - 1
    } else {
        mid
    };
    assert((i32_le())(t[lo], t[mid]) || lo == mid);
    assert(t.to_multiset().count(t[lo]) > 0);
    assert(t.to_multiset().count(t[mid]) > 0);
    assert(w.contains(t[lo]));
    assert(w.contains(t[mid]));
    let i = choose|i: int| 0 <= i < w.len() && w[i] == t[lo];
    let j = choose|j: int| 0 <= j < w.len() && w[j] == t[mid];
    if t.len() % 2 == 0 {
        law_avg2_symmetric_and_between(t[lo], t[mid]);
    }
    assert(w[i] <= spec_median(w) <= w[j]);
}

} // verus!
