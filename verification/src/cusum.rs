//! The decision part of the bilateral CUSUM drift detector.
//!
//! The running statistics and the calibrated threshold are floating-point
//! values kept by the caller; which alert an update raises is decided here.

use vstd::prelude::*;

verus! {

/// Direction of a detected drift.
#[derive(Clone, Copy, Debug, PartialEq, Eq, Structural)]
pub enum DriftDirection {
    /// Sentinel metric drifted upward (mean increased).
    Upward,
    /// Sentinel metric drifted downward (mean decreased).
    Downward,
}

/// The direction of the alert raised after an update, given whether the
/// upward and the downward statistics now exceed the threshold `h`: an
/// upward crossing is reported first; no crossing raises no alert.
pub fn alert_direction(upward_exceeds: bool, downward_exceeds: bool) -> (d: Option<DriftDirection>)
    ensures
        upward_exceeds ==> d == Some(DriftDirection::Upward),
        !upward_exceeds && downward_exceeds ==> d == Some(DriftDirection::Downward),
        !upward_exceeds && !downward_exceeds ==> d is None,
{
    if upward_exceeds {
        Some(DriftDirection::Upward)
    } else if downward_exceeds {
        Some(DriftDirection::Downward)
    } else {
        None
    }
}

} // verus!
