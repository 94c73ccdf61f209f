//! Robot-to-operator feedback: the health report.

use vstd::prelude::*;

verus! {

#[derive(Debug, Clone, Copy, PartialEq, Eq, Structural)]
pub enum HealthState {
    /// Everything nominal.
    Healthy,
    Degraded,
    EStopped,
    Error,
}

#[derive(Debug, Clone, PartialEq)]
pub struct Status {
    pub health: HealthState,
    pub message: String,
    /// Most recent round-trip estimate, nanoseconds.
    pub rtt_nanos: u64,
}

} // verus!
