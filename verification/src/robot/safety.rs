//! The safety latch of an actively driven arm.
//!
//! An e-stop latches for good (torque off, every later command refused); a safe hold
//! (torque still on) refuses commands until it is resumed.

use vstd::prelude::*;
use crate::robot::error::RobotError;

verus! {

/// The latch as a mathematical value.
pub ghost struct SafetyView {
    pub e_stopped: bool,
    pub holding: bool,
}

/// Whether a latch refuses commands.
pub open spec fn refuses_commands(v: SafetyView) -> bool {
    v.e_stopped || v.holding
}

#[derive(Debug, Clone, Copy)]
pub struct SafetyLatch {
    e_stopped: bool,
    holding: bool,
}

impl View for SafetyLatch {
    type V = SafetyView;

    closed spec fn view(&self) -> SafetyView {
        SafetyView { e_stopped: self.e_stopped, holding: self.holding }
    }
}

fn hardware_error(msg: &str) -> (e: RobotError)
    ensures
        e matches RobotError::Hardware(m) && m@ == msg@,
{
    RobotError::Hardware(String::from_str(msg))
}

impl SafetyLatch {
    /// A latch that lets commands through.
    pub fn new() -> (l: Self)
        ensures
            l@ == (SafetyView { e_stopped: false, holding: false }),
    {
        SafetyLatch { e_stopped: false, holding: false }
    }

    /// Latch the e-stop; it clears a safe hold, and nothing releases it.
    pub fn e_stop(&mut self)
        ensures
            final(self)@ == (SafetyView { e_stopped: true, holding: false }),
    {
        self.e_stopped = true;
        self.holding = false;
    }

    /// Enter safe-hold: stop following new commands, but keep torque on to hold the
    /// current position.
    pub fn hold(&mut self)
        ensures
            final(self)@ == (SafetyView { holding: true, ..old(self)@ }),
    {
        self.holding = true;
    }

    /// Resume from safe-hold.
    pub fn resume(&mut self)
        ensures
            final(self)@ == (SafetyView { holding: false, ..old(self)@ }),
    {
        self.holding = false;
    }

    /// Whether the arm is in safe-hold or e-stopped.
    pub fn is_safe(&self) -> (r: bool)
        ensures
            r == refuses_commands(self@),
    {
        self.holding || self.e_stopped
    }

    pub fn is_e_stopped(&self) -> (r: bool)
        ensures
            r == self@.e_stopped,
    {
        self.e_stopped
    }

    pub fn is_holding(&self) -> (r: bool)
        ensures
            r == self@.holding,
    {
        self.holding
    }

    /// Whether a command may be written to the arm: refused with a hardware error
    /// "e-stopped" after an e-stop, "in safe-hold" during a hold.
    pub fn admit_command(&self) -> (r: Result<(), RobotError>)
        ensures
            r is Ok <==> !refuses_commands(self@),
            self@.e_stopped ==> (r matches Err(RobotError::Hardware(m)) && m@ == "e-stopped"@),
            !self@.e_stopped && self@.holding ==> (r matches Err(RobotError::Hardware(m)) && m@
                == "in safe-hold"@),
    {
        if self.e_stopped {
            return Err(hardware_error("e-stopped"));
        }
        if self.holding {
            return Err(hardware_error("in safe-hold"));
        }
        Ok(())
    }

    /// Whether the arm may be moved to a start pose: refused only after an e-stop.
    pub fn admit_alignment(&self) -> (r: Result<(), RobotError>)
        ensures
            r is Ok <==> !self@.e_stopped,
            self@.e_stopped ==> (r matches Err(RobotError::Hardware(m)) && m@ == "e-stopped"@),
    {
        if self.e_stopped {
            return Err(hardware_error("e-stopped"));
        }
        Ok(())
    }
}

impl Default for SafetyLatch {
    fn default() -> (l: Self)
        ensures
            l@ == (SafetyView { e_stopped: false, holding: false }),
    {
        SafetyLatch::new()
    }
}

/// An e-stop is permanent: after it, no hold, resume or further e-stop lets a command
/// through.
pub proof fn lemma_e_stop_latches(v: SafetyView)
    requires
        v.e_stopped,
    ensures
        refuses_commands((SafetyView { holding: true, ..v })),
        refuses_commands((SafetyView { holding: false, ..v })),
        refuses_commands((SafetyView { e_stopped: true, holding: false })),
{
}

/// The latch after a hold.
pub open spec fn held(v: SafetyView) -> SafetyView {
    SafetyView { holding: true, ..v }
}

/// The latch after a resume.
pub open spec fn resumed(v: SafetyView) -> SafetyView {
    SafetyView { holding: false, ..v }
}

/// A hold blocks commands but not an e-stop, and resuming restores exactly the state
/// before the hold.
pub proof fn lemma_hold_resume(v: SafetyView)
    ensures
        refuses_commands((SafetyView { holding: true, ..v })),
        refuses_commands(resumed(held(v))) == v.e_stopped,
        !v.holding ==> resumed(held(v)) == v,
{
}

} // verus!
