//! Message header shared by every command and feedback message.

use vstd::prelude::*;

verus! {

/// Negotiated, per-session identifier.
pub type SessionId = u64;

/// Wire-format protocol version. Bumped on any breaking schema change; gated by
/// [`MessageHeader::protocol_version`].
pub const PROTOCOL_VERSION: u16 = 1;

/// The semantic space a command/stream is expressed in.
#[derive(Debug, Clone, Copy, PartialEq, Eq, Hash, Structural)]
pub enum ControlMode {
    /// End-effector Cartesian pose (default for heterogeneous master/slave & VR).
    CartesianPose,
    /// Per-joint targets (isomorphic master arm with matched DoF).
    JointTargets,
    /// Linear + angular velocity (mobile bases, velocity servoing).
    Twist,
    /// Gripper open/close.
    Gripper,
    /// Multiple of the above keyed by end-effector (dual-arm, humanoid).
    Composite,
    /// Device-specific escape hatch.
    Custom,
}

#[derive(Debug, Clone, PartialEq)]
pub struct MessageHeader {
    pub protocol_version: u16,
    pub session_id: SessionId,
    /// Logical sender, e.g. "vr_left", "arm0".
    pub source_id: String,
    /// Monotonic per source; a gap indicates loss.
    pub seq: u64,
    /// Sender clock in nanoseconds.
    pub stamp_nanos: u64,
    pub control_mode: ControlMode,
}

impl MessageHeader {
    /// A header at the current protocol version, with sequence number and stamp zero.
    pub fn new(session_id: SessionId, source_id: &str, mode: ControlMode) -> (h: Self)
        ensures
            h.protocol_version == PROTOCOL_VERSION,
            h.session_id == session_id,
            h.source_id@ == source_id@,
            h.seq == 0,
            h.stamp_nanos == 0,
            h.control_mode == mode,
    {
        MessageHeader {
            protocol_version: PROTOCOL_VERSION,
            session_id,
            source_id: source_id.to_owned(),
            seq: 0,
            stamp_nanos: 0,
            control_mode: mode,
        }
    }
}

} // verus!
