//! Operator-facing explanations of errors, and their exit codes.

use vstd::prelude::*;

use crate::error::{AbortReason, BuildError, DoserError, doser_error_text};

verus! {

/// What a front end knows about an error it is about to report: a build
/// error, a dosing error, or some other error with its message and the
/// message of its cause, if any.
#[derive(Debug, Clone)]
pub enum ErrorReport {
    Build(BuildError),
    Doser(DoserError),
    Other { message: String, source: Option<String> },
}

/// The stable name of an abort reason, as used in JSON output.
pub open spec fn abort_reason_name_text(r: AbortReason) -> &'static str {
    match r {
        AbortReason::Estop => "Estop",
        AbortReason::NoProgress => "NoProgress",
        AbortReason::MaxRuntime => "MaxRuntime",
        AbortReason::Overshoot => "Overshoot",
        AbortReason::MaxAttempts => "MaxAttempts",
    }
}

/// The stable name of an abort reason, as used in JSON output.
pub fn abort_reason_name(r: &AbortReason) -> (s: &'static str)
    ensures
        s == abort_reason_name_text(*r),
{
    match r {
        AbortReason::Estop => "Estop",
        AbortReason::NoProgress => "NoProgress",
        AbortReason::MaxRuntime => "MaxRuntime",
        AbortReason::Overshoot => "Overshoot",
        AbortReason::MaxAttempts => "MaxAttempts",
    }
}

/// The safety settings that a JSON error report details for an abort.
#[derive(Debug, Clone, Copy, PartialEq, Eq, Structural)]
pub enum AbortDetail {
    /// `max_overshoot_g`.
    MaxOvershoot,
    /// `max_run_ms`.
    MaxRun,
    /// `no_progress_ms` and `no_progress_epsilon_g`.
    NoProgress,
}

/// Which safety settings explain an abort: the overshoot limit for an
/// overshoot, the run-time cap for a run-time abort, the no-progress window
/// for a no-progress abort, none for the others.
pub open spec fn spec_abort_detail(r: AbortReason) -> Option<AbortDetail> {
    match r {
        AbortReason::Overshoot => Some(AbortDetail::MaxOvershoot),
        AbortReason::MaxRuntime => Some(AbortDetail::MaxRun),
        AbortReason::NoProgress => Some(AbortDetail::NoProgress),
        _ => None,
    }
}

/// Which safety settings explain an abort (see [`spec_abort_detail`]).
pub fn abort_detail(r: AbortReason) -> (d: Option<AbortDetail>)
    ensures
        d == spec_abort_detail(r),
{
    match r {
        AbortReason::Overshoot => Some(AbortDetail::MaxOvershoot),
        AbortReason::MaxRuntime => Some(AbortDetail::MaxRun),
        AbortReason::NoProgress => Some(AbortDetail::NoProgress),
        _ => None,
    }
}

/// The process exit code of an abort reason.
pub open spec fn abort_exit_code(r: AbortReason) -> i32 {
    match r {
        AbortReason::Estop => 2,
        AbortReason::NoProgress => 3,
        AbortReason::MaxRuntime => 4,
        AbortReason::Overshoot => 5,
        AbortReason::MaxAttempts => 6,
    }
}

/// Stable exit codes: each abort reason has its own code (2 to 6); every
/// other error exits with 1.
pub fn exit_code_for_error(err: &ErrorReport) -> (c: i32)
    ensures
        c == (match err {
            ErrorReport::Doser(DoserError::Abort(r)) => abort_exit_code(*r),
            _ => 1,
        }),
{
    match err {
        ErrorReport::Doser(DoserError::Abort(r)) => match r {
            AbortReason::Estop => 2,
            AbortReason::NoProgress => 3,
            AbortReason::MaxRuntime => 4,
            AbortReason::Overshoot => 5,
            AbortReason::MaxAttempts => 6,
        },
        _ => 1,
    }
}

/// The code point of a character after ASCII lower-casing.
pub open spec fn lower_code(c: char) -> int {
    if 65 <= (c as int) <= 90 {
        c as int + 32
    } else {
        c as int
    }
}

/// Whether `needle` occurs in `hay` at position `i`, ignoring ASCII case in
/// `hay` (`needle` is given in lower case).
pub open spec fn matches_ci_at(hay: Seq<char>, needle: Seq<char>, i: int) -> bool {
    forall|j: int| 0 <= j < needle.len() ==> lower_code(#[trigger] hay[i + j]) == needle[j] as int
}

/// Whether the ASCII-lower-cased `hay` contains `needle`.
pub open spec fn contains_ci(hay: Seq<char>, needle: Seq<char>) -> bool {
    exists|i: int| 0 <= i && i + needle.len() <= hay.len() && #[trigger] matches_ci_at(hay, needle, i)
}

pub fn matches_ci_at_exec(hay: &str, needle: &str, i: usize, hl: usize, nl: usize) -> (b: bool)
    requires
        hl == hay@.len(),
        nl == needle@.len(),
        i + nl <= hl,
    ensures
        b == matches_ci_at(hay@, needle@, i as int),
{
    let mut j: usize = 0;
    while j < nl
        invariant
            hl == hay@.len(),
            nl == needle@.len(),
            i + nl <= hl,
            j <= nl,
            forall|k: int| 0 <= k < j ==> lower_code(#[trigger] hay@[i + k]) == needle@[k] as int,
        decreases nl - j,
    {
        let c = hay.get_char(i + j);
        let n = needle.get_char(j);
        let cu = c as u32;
        let lc: u32 = if 65 <= cu && cu <= 90 {
            cu + 32
        } else {
            cu
        };
        if lc != (n as u32) {
            proof {
                assert(lower_code(hay@[i + j]) != needle@[j as int] as int);
            }
            return false;
        }
        j = j + 1;
    }
    true
}

/// Whether `hay`, lower-cased, contains `needle` (given in lower case).
pub fn contains_ignore_ascii_case(hay: &str, needle: &str) -> (b: bool)
    ensures
        b == contains_ci(hay@, needle@),
{
    let hl = hay.unicode_len();
    let nl = needle.unicode_len();
    if nl > hl {
        return false;
    }
    let mut i: usize = 0;
    let last = hl - nl;
    while i <= last
        invariant
            last == hl - nl,
            hl == hay@.len(),
            nl == needle@.len(),
            nl <= hl,
            i <= hl - nl + 1,
            forall|k: int| 0 <= k < i ==> !#[trigger] matches_ci_at(hay@, needle@, k),
        decreases hl - i,
    {
        if matches_ci_at_exec(hay, needle, i, hl, nl) {
            return true;
        }
        if i == last {
            return false;
        }
        i = i + 1;
    }
    false
}

/// The dosing error for a hardware error message: a message that mentions a
/// timeout (in any letter case) is a sensor timeout, anything else a
/// hardware error carrying the message.
pub fn map_hw_error(message: String) -> (e: DoserError)
    ensures
        e == (if contains_ci(message@, "timeout"@) {
            DoserError::Timeout
        } else {
            DoserError::Hardware(message)
        }),
{
    if contains_ignore_ascii_case(message.as_str(), "timeout") {
        DoserError::Timeout
    } else {
        DoserError::Hardware(message)
    }
}

/// The explanation of an abort.
pub open spec fn abort_explanation(r: AbortReason) -> Seq<char> {
    match r {
        AbortReason::Estop => "What happened: Emergency stop was triggered.\nLikely causes: E-stop button pressed or input pin active.\nHow to fix: Release E-stop, ensure wiring is correct, then start a new run."@,
        AbortReason::NoProgress => "What happened: No progress watchdog tripped.\nLikely causes: Jammed auger, empty hopper, or scale not changing within threshold.\nHow to fix: Check mechanics and materials; adjust safety.no_progress_* in config if needed."@,
        AbortReason::MaxRuntime => "max run time was exceeded.\nLikely causes: Too conservative speeds, high target, or stalls.\nHow to fix: Increase safety.max_run_ms or adjust speeds/target."@,
        AbortReason::Overshoot => "What happened: Overshoot beyond safety limit.\nLikely causes: Inertia or too high coarse/fine speed near target.\nHow to fix: Lower speeds or increase safety.max_overshoot_g and tune epsilon/slow_at."@,
        AbortReason::MaxAttempts => "What happened: Internal strategy aborted after maximum attempts.\nLikely causes: Conservative settings or unexpected stall in strategy loop.\nHow to fix: Increase attempts or review control/safety settings."@,
    }
}

/// The explanation of an error that is neither a build nor a dosing error,
/// recognised by what its message says.
pub open spec fn other_explanation(message: Seq<char>, source: Option<Seq<char>>) -> Seq<char> {
    if (contains_ci(message, "hx711"@) && contains_ci(message, "timeout"@)) || contains_ci(
        message,
        "datareadytimeout"@,
    ) {
        "What happened: HX711 did not produce data within the configured timeout.\nLikely causes: Wrong DT/SCK pins, wiring/power issues, or timeout configured too low.\nHow to fix: Check [pins] in the config, verify 5V/GND, and raise hardware.sensor_read_timeout_ms."@
    } else if contains_ci(message, "open hx711"@) || contains_ci(message, "open motor pins"@) {
        "What happened: Failed to initialize hardware pins.\nLikely causes: Incorrect pin numbers or insufficient GPIO permissions.\nHow to fix: Fix the [pins] values in the config; ensure the process has permission to access GPIO."@
    } else if contains_ci(message, "invalid configuration"@) || (contains_ci(message, "pin"@)
        && contains_ci(message, "missing"@)) {
        "What happened: Configuration is invalid or incomplete.\nLikely causes: Missing [pins] (hx711_dt, hx711_sck, motor_step, motor_dir, ...), or out-of-range values.\nHow to fix: Edit the TOML config and try again."@
    } else if contains_ci(message, "calibration csv must have headers"@) {
        "Invalid headers in calibration CSV. Expected 'raw,grams'."@
    } else {
        let cause = match source {
            Some(s) => " Cause: "@ + s,
            None => Seq::<char>::empty(),
        };
        "Something went wrong."@ + cause
            + "\nHow to fix: Re-run with --log-level=debug for details. Original: "@ + message
    }
}

/// What happened, its likely causes and how to fix it, for an error report.
pub open spec fn humanize_text(err: ErrorReport) -> Seq<char> {
    match err {
        ErrorReport::Build(BuildError::MissingScale) => "What happened: No scale was provided to the dosing engine.\nLikely causes: Hardware scale failed to initialize or was not wired into the builder.\nHow to fix: Ensure the HX711 scale is created successfully and passed via with_scale(...)."@,
        ErrorReport::Build(BuildError::MissingMotor) => "What happened: No motor was provided to the dosing engine.\nLikely causes: Motor driver failed to initialize or was not wired into the builder.\nHow to fix: Ensure the motor is created successfully and passed via with_motor(...)."@,
        ErrorReport::Build(BuildError::MissingTarget) => "What happened: Target grams not set.\nLikely causes: The CLI did not pass --grams or the builder was not configured.\nHow to fix: Provide the desired grams (e.g., `doser dose --grams 10`)."@,
        ErrorReport::Build(BuildError::InvalidConfig(m)) => "What happened: Invalid configuration ("@ + m@
            + ").\nLikely causes: Missing or out-of-range values in the TOML.\nHow to fix: Edit the config file, then rerun. See README for a sample."@,
        ErrorReport::Doser(DoserError::Timeout) => "What happened: Scale read timed out.\nLikely causes: HX711 not wired correctly, no power/ground, or timeout too low.\nHow to fix: Verify DT/SCK pins and power, and consider increasing hardware.sensor_read_timeout_ms in the config."@,
        ErrorReport::Doser(DoserError::Abort(r)) => abort_explanation(r),
        ErrorReport::Doser(e) => "What happened: "@ + doser_error_text(e)
            + ".\nLikely causes: See logs.\nHow to fix: Re-run with --log-level=debug or set RUST_LOG for more detail."@,
        ErrorReport::Other { message, source } => other_explanation(
            message@,
            match source {
                Some(s) => Some(s@),
                None => None,
            },
        ),
    }
}

fn abort_explanation_exec(r: AbortReason) -> (s: String)
    ensures
        s@ == abort_explanation(r),
{
    match r {
        AbortReason::Estop => String::from_str("What happened: Emergency stop was triggered.\nLikely causes: E-stop button pressed or input pin active.\nHow to fix: Release E-stop, ensure wiring is correct, then start a new run."),
        AbortReason::NoProgress => String::from_str("What happened: No progress watchdog tripped.\nLikely causes: Jammed auger, empty hopper, or scale not changing within threshold.\nHow to fix: Check mechanics and materials; adjust safety.no_progress_* in config if needed."),
        AbortReason::MaxRuntime => String::from_str("max run time was exceeded.\nLikely causes: Too conservative speeds, high target, or stalls.\nHow to fix: Increase safety.max_run_ms or adjust speeds/target."),
        AbortReason::Overshoot => String::from_str("What happened: Overshoot beyond safety limit.\nLikely causes: Inertia or too high coarse/fine speed near target.\nHow to fix: Lower speeds or increase safety.max_overshoot_g and tune epsilon/slow_at."),
        AbortReason::MaxAttempts => String::from_str("What happened: Internal strategy aborted after maximum attempts.\nLikely causes: Conservative settings or unexpected stall in strategy loop.\nHow to fix: Increase attempts or review control/safety settings."),
    }
}

fn other_explanation_exec(message: &str, source: &Option<String>) -> (s: String)
    ensures
        s@ == other_explanation(
            message@,
            match source {
                Some(x) => Some(x@),
                None => None,
            },
        ),
{
    if (contains_ignore_ascii_case(message, "hx711") && contains_ignore_ascii_case(message, "timeout"))
        || contains_ignore_ascii_case(message, "datareadytimeout") {
        return String::from_str("What happened: HX711 did not produce data within the configured timeout.\nLikely causes: Wrong DT/SCK pins, wiring/power issues, or timeout configured too low.\nHow to fix: Check [pins] in the config, verify 5V/GND, and raise hardware.sensor_read_timeout_ms.");
    }
    if contains_ignore_ascii_case(message, "open hx711") || contains_ignore_ascii_case(message, "open motor pins") {
        return String::from_str("What happened: Failed to initialize hardware pins.\nLikely causes: Incorrect pin numbers or insufficient GPIO permissions.\nHow to fix: Fix the [pins] values in the config; ensure the process has permission to access GPIO.");
    }
    if contains_ignore_ascii_case(message, "invalid configuration") || (contains_ignore_ascii_case(message, "pin")
        && contains_ignore_ascii_case(message, "missing")) {
        return String::from_str("What happened: Configuration is invalid or incomplete.\nLikely causes: Missing [pins] (hx711_dt, hx711_sck, motor_step, motor_dir, ...), or out-of-range values.\nHow to fix: Edit the TOML config and try again.");
    }
    if contains_ignore_ascii_case(message, "calibration csv must have headers") {
        return String::from_str("Invalid headers in calibration CSV. Expected 'raw,grams'.");
    }
    let mut out = String::from_str("Something went wrong.");
    match source {
        Some(s) => {
            out = out.concat(" Cause: ");
            out = out.concat(s.as_str());
        },
        None => {},
    }
    out = out.concat("\nHow to fix: Re-run with --log-level=debug for details. Original: ");
    out = out.concat(message);
    out
}

/// Map an error report to a human-readable explanation with likely causes
/// and how to fix it.
pub fn humanize(err: &ErrorReport) -> (s: String)
    ensures
        s@ == humanize_text(*err),
{
    match err {
        ErrorReport::Build(BuildError::MissingScale) => String::from_str("What happened: No scale was provided to the dosing engine.\nLikely causes: Hardware scale failed to initialize or was not wired into the builder.\nHow to fix: Ensure the HX711 scale is created successfully and passed via with_scale(...)."),
        ErrorReport::Build(BuildError::MissingMotor) => String::from_str("What happened: No motor was provided to the dosing engine.\nLikely causes: Motor driver failed to initialize or was not wired into the builder.\nHow to fix: Ensure the motor is created successfully and passed via with_motor(...)."),
        ErrorReport::Build(BuildError::MissingTarget) => String::from_str("What happened: Target grams not set.\nLikely causes: The CLI did not pass --grams or the builder was not configured.\nHow to fix: Provide the desired grams (e.g., `doser dose --grams 10`)."),
        ErrorReport::Build(BuildError::InvalidConfig(m)) => {
            let out = String::from_str("What happened: Invalid configuration (").concat(m);
            out.concat(").\nLikely causes: Missing or out-of-range values in the TOML.\nHow to fix: Edit the config file, then rerun. See README for a sample.")
        },
        ErrorReport::Doser(DoserError::Timeout) => String::from_str("What happened: Scale read timed out.\nLikely causes: HX711 not wired correctly, no power/ground, or timeout too low.\nHow to fix: Verify DT/SCK pins and power, and consider increasing hardware.sensor_read_timeout_ms in the config."),
        ErrorReport::Doser(DoserError::Abort(r)) => abort_explanation_exec(*r),
        ErrorReport::Doser(e) => {
            let t = e.to_string();
            let out = String::from_str("What happened: ").concat(t.as_str());
            out.concat(".\nLikely causes: See logs.\nHow to fix: Re-run with --log-level=debug or set RUST_LOG for more detail.")
        },
        ErrorReport::Other { message, source } => other_explanation_exec(message.as_str(), source),
    }
}

/// Every abort reason has its own exit code, distinct from the code of the
/// other errors.
pub proof fn law_exit_codes_are_distinct(a: AbortReason, b: AbortReason)
    ensures
        abort_exit_code(a) == abort_exit_code(b) <==> a == b,
        abort_exit_code(a) != 1,
        abort_exit_code(a) != 0,
{
}

} // verus!
