//! Status of one iteration of the dosing loop, and coarse run/hardware states.

use vstd::prelude::*;

use crate::error::DoserError;

verus! {

/// Public status of a single step of the dosing loop.
#[derive(Debug)]
pub enum DosingStatus {
    /// Keep going; not settled yet.
    Running,
    /// Target reached and settled; motor already stopped.
    Complete,
    /// Aborted with a typed error; motor has been asked to stop.
    Aborted(DoserError),
}

/// What a dosing station is being used for.
pub enum DosingMode {
    Normal,
    Calibration,
    Cleaning,
}

/// Coarse state of the dosing hardware.
pub enum HardwareState {
    Idle,
    Running,
    Error(String),
}

} // verus!
