//! Orchestration decisions of a dosing run: how samples are obtained, and
//! the sampler-mode watchdogs that end a run when the sensor stalls, the
//! run-time cap is reached, the operator asks for shutdown or the E-stop
//! latches.

use vstd::prelude::*;

use crate::error::{AbortReason, DoserError};

verus! {

/// How sampling is orchestrated.
#[derive(Debug, Clone, Copy, PartialEq, Eq, Structural)]
pub enum SamplingMode {
    /// Read the scale inside the control loop.
    Direct,
    /// A sampler thread blocks on the sensor's data-ready signal.
    Event,
    /// A sampler thread reads at the given rate in Hz.
    Paced(u32),
}

/// `a * b`, saturating at `u64::MAX`.
pub open spec fn sat_mul(a: int, b: int) -> int {
    if a * b > u64::MAX {
        u64::MAX as int
    } else {
        a * b
    }
}

/// The stall watchdog threshold (ms): four sensor timeouts, but never less
/// than two sampling periods so one missed sample does not trip it, and kept
/// strictly below the run-time cap so the watchdog can fire before the cap.
/// When the cap is shorter than two periods, the four-timeout threshold is
/// the one capped. Never below 1 ms.
pub open spec fn spec_stall_threshold(sensor_timeout_ms: int, period_ms: int, max_run_ms: int) -> int {
    let fast = sat_mul(sensor_timeout_ms, 4);
    let two_periods = sat_mul(period_ms, 2);
    if max_run_ms < two_periods {
        let below_cap = if max_run_ms >= 1 {
            max_run_ms - 1
        } else {
            0
        };
        let capped = if fast <= below_cap {
            fast
        } else {
            below_cap
        };
        if capped >= 1 {
            capped
        } else {
            1
        }
    } else {
        let safe = if fast >= two_periods {
            fast
        } else {
            two_periods
        };
        let below_cap = if max_run_ms >= 1 {
            max_run_ms - 1
        } else {
            0
        };
        let capped = if safe <= below_cap {
            safe
        } else {
            below_cap
        };
        if capped >= 1 {
            capped
        } else {
            1
        }
    }
}

/// Compute the stall watchdog threshold in milliseconds (see
/// [`spec_stall_threshold`]).
pub fn compute_stall_threshold_ms(sensor_timeout_ms: u64, period_ms: u64, max_run_ms: u64) -> (t: u64)
    ensures
        t == spec_stall_threshold(sensor_timeout_ms as int, period_ms as int, max_run_ms as int),
{
    let fast = if sensor_timeout_ms > u64::MAX / 4 {
        proof {
            assert(sensor_timeout_ms * 4 > u64::MAX) by (nonlinear_arith)
                requires
                    sensor_timeout_ms > u64::MAX / 4,
            ;
        }
        u64::MAX
    } else {
        sensor_timeout_ms * 4
    };
    let two_periods = if period_ms > u64::MAX / 2 {
        proof {
            assert(period_ms * 2 > u64::MAX) by (nonlinear_arith)
                requires
                    period_ms > u64::MAX / 2,
            ;
        }
        u64::MAX
    } else {
        period_ms * 2
    };
    if max_run_ms < two_periods {
        let below_cap = if max_run_ms >= 1 {
            max_run_ms - 1
        } else {
            0
        };
        let capped = if fast <= below_cap {
            fast
        } else {
            below_cap
        };
        if capped >= 1 {
            capped
        } else {
            1
        }
    } else {
        let safe = if fast >= two_periods {
            fast
        } else {
            two_periods
        };
        let below_cap = if max_run_ms >= 1 {
            max_run_ms - 1
        } else {
            0
        };
        let capped = if safe <= below_cap {
            safe
        } else {
            below_cap
        };
        if capped >= 1 {
            capped
        } else {
            1
        }
    }
}

/// Whether the sampler counts as stalled: the run is at least one threshold
/// old and the last good sample is more than a threshold ago.
pub fn stalled_now(elapsed_ms: u64, stalled_ms: u64, threshold_ms: u64) -> (b: bool)
    ensures
        b == (elapsed_ms >= threshold_ms && stalled_ms > threshold_ms),
{
    elapsed_ms >= threshold_ms && stalled_ms > threshold_ms
}

/// Pick how sampling is orchestrated: `--direct` forces the in-loop read;
/// otherwise real hardware is event-driven off the sensor's data-ready
/// signal and the simulator is paced at the configured rate.
pub fn choose_sampling_mode(direct: bool, hardware: bool, sample_rate_hz: u32) -> (m: SamplingMode)
    ensures
        m == (if direct {
            SamplingMode::Direct
        } else if hardware {
            SamplingMode::Event
        } else {
            SamplingMode::Paced(sample_rate_hz)
        }),
{
    if direct {
        SamplingMode::Direct
    } else if hardware {
        SamplingMode::Event
    } else {
        SamplingMode::Paced(sample_rate_hz)
    }
}

/// The verdict of the sampler-mode watchdogs for one pass of the run loop.
pub open spec fn spec_supervise(
    shutdown_requested: bool,
    estop_latched: bool,
    elapsed_ms: u64,
    stalled_ms: u64,
    threshold_ms: u64,
    max_run_ms: u64,
    prefer_timeout_first: bool,
) -> Option<DoserError> {
    let stalled = elapsed_ms >= threshold_ms && stalled_ms > threshold_ms;
    if shutdown_requested || estop_latched {
        Some(DoserError::Abort(AbortReason::Estop))
    } else if prefer_timeout_first && stalled {
        Some(DoserError::Timeout)
    } else if elapsed_ms >= max_run_ms {
        Some(DoserError::Abort(AbortReason::MaxRuntime))
    } else if stalled {
        Some(DoserError::Timeout)
    } else {
        None
    }
}

/// Decide whether a sampler-mode run must end on this pass, and why: a
/// shutdown request or a latched E-stop ends it as an E-stop abort; a
/// stalled sensor ends it with a timeout and the run-time cap with a
/// `MaxRuntime` abort, the timeout taking precedence over the cap when
/// `prefer_timeout_first` (and the cap over the timeout otherwise). In
/// every case the caller stops the motor.
pub fn supervise(
    shutdown_requested: bool,
    estop_latched: bool,
    elapsed_ms: u64,
    stalled_ms: u64,
    threshold_ms: u64,
    max_run_ms: u64,
    prefer_timeout_first: bool,
) -> (v: Option<DoserError>)
    ensures
        v == spec_supervise(
            shutdown_requested,
            estop_latched,
            elapsed_ms,
            stalled_ms,
            threshold_ms,
            max_run_ms,
            prefer_timeout_first,
        ),
{
    let stalled = stalled_now(elapsed_ms, stalled_ms, threshold_ms);
    if shutdown_requested || estop_latched {
        Some(DoserError::Abort(AbortReason::Estop))
    } else if prefer_timeout_first && stalled {
        Some(DoserError::Timeout)
    } else if elapsed_ms >= max_run_ms {
        Some(DoserError::Abort(AbortReason::MaxRuntime))
    } else if stalled {
        Some(DoserError::Timeout)
    } else {
        None
    }
}

/// The stall threshold is at least 1 ms; with a run-time cap of at least
/// 2 ms it stays strictly below the cap, so the stall watchdog can fire
/// before the cap does; it never exceeds the larger of four sensor timeouts
/// and two periods (saturating), and equals it (if positive) when the cap
/// leaves room;
/// with a cap shorter than two periods it never exceeds four sensor
/// timeouts (all but the 1 ms floor).
pub proof fn law_stall_threshold_bounds(sensor_timeout_ms: u64, period_ms: u64, max_run_ms: u64)
    ensures
        ({
            let t = spec_stall_threshold(sensor_timeout_ms as int, period_ms as int, max_run_ms as int);
            let fast = sat_mul(sensor_timeout_ms as int, 4);
            let two_periods = sat_mul(period_ms as int, 2);
            let safe = if fast >= two_periods { fast } else { two_periods };
            &&& 1 <= t <= u64::MAX
            &&& max_run_ms >= 2 ==> t < max_run_ms
            &&& t <= safe || t == 1
            &&& max_run_ms > safe >= 1 ==> t == safe
            &&& max_run_ms < two_periods ==> t <= fast || t == 1
        }),
{
}

/// When the stall watchdog and the run-time cap fire on the same pass,
/// `prefer_timeout_first` alone decides which is reported.
pub proof fn law_timeout_precedence(
    elapsed_ms: u64,
    stalled_ms: u64,
    threshold_ms: u64,
    max_run_ms: u64,
)
    requires
        elapsed_ms >= threshold_ms,
        stalled_ms > threshold_ms,
        elapsed_ms >= max_run_ms,
    ensures
        spec_supervise(false, false, elapsed_ms, stalled_ms, threshold_ms, max_run_ms, true) == Some(
            DoserError::Timeout,
        ),
        spec_supervise(false, false, elapsed_ms, stalled_ms, threshold_ms, max_run_ms, false) == Some(
            DoserError::Abort(AbortReason::MaxRuntime),
        ),
{
}

/// A shutdown request or a latched E-stop always ends the run as an E-stop
/// abort, whatever the other watchdogs say.
pub proof fn law_shutdown_wins(
    estop_latched: bool,
    elapsed_ms: u64,
    stalled_ms: u64,
    threshold_ms: u64,
    max_run_ms: u64,
    prefer_timeout_first: bool,
)
    ensures
        spec_supervise(true, estop_latched, elapsed_ms, stalled_ms, threshold_ms, max_run_ms, prefer_timeout_first)
            == Some(DoserError::Abort(AbortReason::Estop)),
        spec_supervise(estop_latched, true, elapsed_ms, stalled_ms, threshold_ms, max_run_ms, prefer_timeout_first)
            == Some(DoserError::Abort(AbortReason::Estop)),
{
}

/// The run-time cap of a dose: a command-line override wins; otherwise the
/// configured cap, where 0 means "use the engine's default".
pub fn effective_max_run_ms(override_ms: Option<u64>, configured_ms: u64, default_ms: u64) -> (ms: u64)
    ensures
        ms == (match override_ms {
            Some(o) => o,
            None => if configured_ms == 0 {
                default_ms
            } else {
                configured_ms
            },
        }),
{
    match override_ms {
        Some(o) => o,
        None => if configured_ms == 0 {
            default_ms
        } else {
            configured_ms
        },
    }
}

} // verus!
