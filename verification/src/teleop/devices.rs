//! Device adapters: the bookkeeping of the demo Cartesian device.

use vstd::prelude::*;
use crate::messages::capability::Capabilities;
use crate::messages::header::{ControlMode, MessageHeader, PROTOCOL_VERSION, SessionId};

verus! {

/// What a Cartesian-pose device advertises: six degrees of freedom, Cartesian mode
/// only, the `base` frame and the `tcp` end-effector, no gripper.
pub open spec fn is_cartesian_caps(c: Capabilities, rate_hz: u32, force_feedback: bool) -> bool {
    &&& c.dof == 6
    &&& c.supported_modes@ == seq![ControlMode::CartesianPose]
    &&& c.force_feedback == force_feedback
    &&& c.max_rate_hz == rate_hz
    &&& c.frames@.len() == 1 && c.frames@[0]@ == "base"@
    &&& c.end_effectors@.len() == 1 && c.end_effectors@[0]@ == "tcp"@
    &&& c.gripper is None
}

fn cartesian_caps(rate_hz: u32, force_feedback: bool) -> (c: Capabilities)
    ensures
        is_cartesian_caps(c, rate_hz, force_feedback),
{
    let mut modes: Vec<ControlMode> = Vec::new();
    modes.push(ControlMode::CartesianPose);
    let mut frames: Vec<String> = Vec::new();
    frames.push(String::from_str("base"));
    let mut end_effectors: Vec<String> = Vec::new();
    end_effectors.push(String::from_str("tcp"));
    assert(modes@ =~= seq![ControlMode::CartesianPose]);
    Capabilities {
        dof: 6,
        supported_modes: modes,
        force_feedback,
        max_rate_hz: rate_hz,
        frames,
        end_effectors,
        gripper: None,
    }
}

/// Emits a Cartesian target that wiggles along X; useful for end-to-end tests. This
/// is the device's identity and sequence counter; the pose itself is computed by the
/// caller from the sequence number of each header.
pub struct DemoCartesianDevice {
    session_id: SessionId,
    source_id: String,
    seq: u64,
}

/// The device as a mathematical value.
pub ghost struct DeviceView {
    pub session_id: SessionId,
    pub source_id: Seq<char>,
    pub seq: u64,
}

impl View for DemoCartesianDevice {
    type V = DeviceView;

    closed spec fn view(&self) -> DeviceView {
        DeviceView { session_id: self.session_id, source_id: self.source_id@, seq: self.seq }
    }
}

impl DemoCartesianDevice {
    pub fn new(session_id: SessionId, source_id: &str) -> (d: Self)
        ensures
            d@ == (DeviceView { session_id, source_id: source_id@, seq: 0 }),
    {
        DemoCartesianDevice { session_id, source_id: String::from_str(source_id), seq: 0 }
    }

    /// The sequence number the next header will carry.
    pub fn seq(&self) -> (r: u64)
        ensures
            r == self@.seq,
    {
        self.seq
    }

    /// Cartesian pose at up to 200 Hz, without force feedback.
    pub fn capabilities(&self) -> (c: Capabilities)
        ensures
            is_cartesian_caps(c, 200, false),
    {
        cartesian_caps(200, false)
    }

    /// The header of the next command, stamped `stamp_nanos`: Cartesian mode, this
    /// device's identity and the next sequence number, which is then used up.
    pub fn next_header(&mut self, stamp_nanos: u64) -> (h: MessageHeader)
        requires
            old(self)@.seq < u64::MAX,
        ensures
            h.protocol_version == PROTOCOL_VERSION,
            h.session_id == old(self)@.session_id,
            h.source_id@ == old(self)@.source_id,
            h.seq == old(self)@.seq,
            h.stamp_nanos == stamp_nanos,
            h.control_mode == ControlMode::CartesianPose,
            final(self)@ == (DeviceView { seq: (old(self)@.seq + 1) as u64, ..old(self)@ }),
    {
        let mut header = MessageHeader::new(
            self.session_id,
            self.source_id.as_str(),
            ControlMode::CartesianPose,
        );
        header.seq = self.seq;
        header.stamp_nanos = stamp_nanos;
        self.seq = self.seq + 1;
        header
    }
}

} // verus!
