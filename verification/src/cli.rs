//! Command-line choices with logic of their own.

use vstd::prelude::*;

verus! {

/// The fastest step rate the motor drivers accept, in steps per second;
/// both motor backends clamp requested rates to it.
pub const MAX_STEP_RATE_SPS: u32 = 5000u32;

/// Memory locking mode for real-time operation.
#[derive(Copy, Clone, Debug, Eq, PartialEq, Structural)]
pub enum RtLock {
    /// Do not lock memory
    NoLock,
    /// Lock currently resident pages
    Current,
    /// Lock current and future pages
    All,
}

/// The operating system family the program runs on.
#[derive(Copy, Clone, Debug, Eq, PartialEq, Structural)]
pub enum HostOs {
    Linux,
    MacOs,
    Other,
}

impl RtLock {
    /// The memory locking mode used when none is asked for: lock resident
    /// pages on Linux, nothing elsewhere.
    pub fn os_default(os: HostOs) -> (l: Self)
        ensures
            l == (if os == HostOs::Linux {
                RtLock::Current
            } else {
                RtLock::NoLock
            }),
    {
        match os {
            HostOs::Linux => RtLock::Current,
            _ => RtLock::NoLock,
        }
    }
}

/// Motor rotation direction for the `motor` jog command.
#[derive(Copy, Clone, Debug, Eq, PartialEq, Structural)]
pub enum Direction {
    /// Clockwise (DIR line high)
    Cw,
    /// Counterclockwise (DIR line low)
    Ccw,
}

impl Direction {
    /// True when clockwise; maps directly to the DIR line level.
    pub fn is_clockwise(self) -> (b: bool)
        ensures
            b == (self == Direction::Cw),
    {
        match self {
            Direction::Cw => true,
            Direction::Ccw => false,
        }
    }
}

/// The rate a motor actually steps at for a requested rate.
pub open spec fn effective_sps(sps: u32) -> int {
    if sps < 1 {
        1
    } else if sps > MAX_STEP_RATE_SPS {
        MAX_STEP_RATE_SPS as int
    } else {
        sps as int
    }
}

/// How long (ms) a motor jog runs: `ms` when no step count is asked for,
/// else the time `steps` take at the effective (clamped) rate, rounded up
/// so the count is never short.
pub open spec fn spec_jog_duration(steps: Option<u32>, sps: u32, ms: u64) -> int {
    match steps {
        None => ms as int,
        Some(n) => (n * 1000 + effective_sps(sps) - 1) / effective_sps(sps),
    }
}

/// How long (ms) the `motor` jog runs for `--steps` / `--sps` / `--ms`.
pub fn jog_duration(steps: Option<u32>, sps: u32, ms: u64) -> (d: u64)
    ensures
        d == spec_jog_duration(steps, sps, ms),
{
    let eff: u64 = if sps < 1 {
        1
    } else if sps > MAX_STEP_RATE_SPS {
        MAX_STEP_RATE_SPS as u64
    } else {
        sps as u64
    };
    match steps {
        None => ms,
        Some(n) => ((n as u64) * 1000 + eff - 1) / eff,
    }
}

/// A jog derived from a step count runs at least long enough for all the
/// steps at the effective rate, and less than one millisecond longer.
pub proof fn law_jog_duration_covers_steps(n: u32, sps: u32, ms: u64)
    ensures
        ({
            let d = spec_jog_duration(Some(n), sps, ms);
            let r = effective_sps(sps);
            d * r >= n * 1000 && (d - 1) * r < n * 1000
        }),
{
    let r = effective_sps(sps);
    let a = n * 1000;
    let d = (a + r - 1) / r;
    assert(d * r >= a && (d - 1) * r < a) by (nonlinear_arith)
        requires
            r >= 1,
            a >= 0,
            d == (a + r - 1) / r,
    {
        let q = (a + r - 1) / r;
        let m = (a + r - 1) % r;
        assert(a + r - 1 == q * r + m);
        assert(0 <= m < r);
    }
}

} // verus!
