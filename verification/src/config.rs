//! Runtime configuration of the dosing engine that carries no quantity in
//! grams (those are given to [`crate::builder::BuildConfig`] in centigrams).

use vstd::prelude::*;

verus! {

/// Timeouts and watchdogs.
#[derive(Debug, Clone, Copy)]
pub struct Timeouts {
    /// Max sensor wait per read (ms).
    pub sensor_ms: u64,
}

impl Default for Timeouts {
    fn default() -> (t: Self)
        ensures
            t.sensor_ms == 150,
    {
        Timeouts { sensor_ms: 150 }
    }
}

} // verus!
