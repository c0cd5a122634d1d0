//! Domain and build errors of the dosing engine, and the stable `AbortReason`
//! that command-line front ends map to exit codes and JSON fields.

use vstd::prelude::*;

verus! {

/// Why a dose was aborted.
#[derive(Debug, Clone, Copy, PartialEq, Eq, Structural)]
pub enum AbortReason {
    Estop,
    NoProgress,
    MaxRuntime,
    Overshoot,
    MaxAttempts,
}

/// The stable human-readable text of an abort reason.
pub open spec fn abort_reason_text(r: AbortReason) -> Seq<char> {
    match r {
        AbortReason::Estop => "estop"@,
        AbortReason::NoProgress => "no progress"@,
        AbortReason::MaxRuntime => "max run time exceeded"@,
        AbortReason::Overshoot => "max overshoot exceeded"@,
        AbortReason::MaxAttempts => "max attempts exceeded"@,
    }
}

impl AbortReason {
    /// The stable human-readable text of this reason.
    pub fn to_string(&self) -> (s: String)
        ensures
            s@ == abort_reason_text(*self),
    {
        match self {
            AbortReason::Estop => String::from_str("estop"),
            AbortReason::NoProgress => String::from_str("no progress"),
            AbortReason::MaxRuntime => String::from_str("max run time exceeded"),
            AbortReason::Overshoot => String::from_str("max overshoot exceeded"),
            AbortReason::MaxAttempts => String::from_str("max attempts exceeded"),
        }
    }
}

/// Errors of a dosing run.
#[derive(Debug, Clone)]
pub enum DoserError {
    Hardware(String),
    HardwareFault(String),
    Config(String),
    Timeout,
    Abort(AbortReason),
    Io(String),
}

/// The human-readable text of a dosing error.
pub open spec fn doser_error_text(e: DoserError) -> Seq<char> {
    match e {
        DoserError::Hardware(m) => "hardware error: "@ + m@,
        DoserError::HardwareFault(m) => "hardware fault: "@ + m@,
        DoserError::Config(m) => "configuration error: "@ + m@,
        DoserError::Timeout => "timeout waiting for sensor"@,
        DoserError::Abort(r) => "aborted: "@ + abort_reason_text(r),
        DoserError::Io(m) => "io error: "@ + m@,
    }
}

impl DoserError {
    /// The human-readable text of this error.
    pub fn to_string(&self) -> (s: String)
        ensures
            s@ == doser_error_text(*self),
    {
        match self {
            DoserError::Hardware(m) => String::from_str("hardware error: ").concat(m.as_str()),
            DoserError::HardwareFault(m) => String::from_str("hardware fault: ").concat(m.as_str()),
            DoserError::Config(m) => String::from_str("configuration error: ").concat(m.as_str()),
            DoserError::Timeout => String::from_str("timeout waiting for sensor"),
            DoserError::Abort(r) => {
                let t = r.to_string();
                String::from_str("aborted: ").concat(t.as_str())
            },
            DoserError::Io(m) => String::from_str("io error: ").concat(m.as_str()),
        }
    }
}

/// Errors found while assembling a doser from its parts and configuration.
#[derive(Debug, Clone)]
pub enum BuildError {
    MissingScale,
    MissingMotor,
    MissingTarget,
    InvalidConfig(&'static str),
}

/// The human-readable text of a build error.
pub open spec fn build_error_text(e: BuildError) -> Seq<char> {
    match e {
        BuildError::MissingScale => "missing scale"@,
        BuildError::MissingMotor => "missing motor"@,
        BuildError::MissingTarget => "missing target grams"@,
        BuildError::InvalidConfig(m) => "invalid config: "@ + m@,
    }
}

impl BuildError {
    /// The human-readable text of this error.
    pub fn to_string(&self) -> (s: String)
        ensures
            s@ == build_error_text(*self),
    {
        match self {
            BuildError::MissingScale => String::from_str("missing scale"),
            BuildError::MissingMotor => String::from_str("missing motor"),
            BuildError::MissingTarget => String::from_str("missing target grams"),
            BuildError::InvalidConfig(m) => String::from_str("invalid config: ").concat(m),
        }
    }
}

} // verus!
