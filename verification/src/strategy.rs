//! The default dosing strategy: step the controller until the dose
//! completes, aborts, or runs out of attempts.

use vstd::prelude::*;

use crate::error::{AbortReason, DoserError};
use crate::status::DosingStatus;

verus! {

/// Steps the controller at most `max_attempts` times.
pub struct DefaultDosingStrategy {
    pub max_attempts: u32,
}

impl Default for DefaultDosingStrategy {
    fn default() -> (s: Self)
        ensures
            s.max_attempts == 100,
    {
        DefaultDosingStrategy { max_attempts: 100 }
    }
}

/// What the strategy does after a step.
#[derive(Debug)]
pub enum StrategyVerdict {
    /// Step again.
    Continue,
    /// The dose is complete.
    Done,
    /// Stop the motor and fail with this error.
    StopAndFail(DoserError),
}

impl DefaultDosingStrategy {
    /// The verdict after the `attempts`-th step reported `status`: a
    /// completed dose is done; an aborted one stops the motor and fails with
    /// its error; a dose still running after `max_attempts` steps stops the
    /// motor and fails with `MaxAttempts`.
    pub fn after_step(&self, attempts: u32, status: DosingStatus) -> (v: StrategyVerdict)
        ensures
            match status {
                DosingStatus::Complete => v is Done,
                DosingStatus::Aborted(e) => v == StrategyVerdict::StopAndFail(e),
                DosingStatus::Running => if attempts >= self.max_attempts {
                    v == StrategyVerdict::StopAndFail(DoserError::Abort(AbortReason::MaxAttempts))
                } else {
                    v is Continue
                },
            },
    {
        match status {
            DosingStatus::Complete => StrategyVerdict::Done,
            DosingStatus::Aborted(e) => StrategyVerdict::StopAndFail(e),
            DosingStatus::Running => if attempts >= self.max_attempts {
                StrategyVerdict::StopAndFail(DoserError::Abort(AbortReason::MaxAttempts))
            } else {
                StrategyVerdict::Continue
            },
        }
    }
}

} // verus!
