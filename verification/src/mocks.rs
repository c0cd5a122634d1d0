//! Test and helper doubles.

use vstd::prelude::*;

verus! {

/// A scale that always fails to read; useful when the control loop is fed
/// externally sampled raw values.
pub struct NoopScale;

} // verus!
