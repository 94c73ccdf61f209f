//! Follower-daemon state machine.
//!
//! Three stable states: Idle, Ready, Recording. TorqueOff returns to Idle from any
//! state. Transitions may ask the caller to launch or stop the recording dataflow.

use vstd::prelude::*;
use crate::messages::control::{ControlCommand, ControlCommandView};

verus! {

#[derive(Debug, Clone, Copy, PartialEq, Eq, Structural)]
pub enum ArmState {
    Idle,
    Ready,
    Recording,
}

#[derive(Debug, Clone, Copy, PartialEq, Eq, Structural)]
pub enum DataflowAction {
    Launch,
    Stop,
    /// Leave the dataflow as it is.
    Nothing,
}

/// One step of the machine: the state after `cmd` and the dataflow action the caller
/// must take after the transition. Commands that do not apply leave the state as it
/// is and ask for nothing.
pub open spec fn fsm_step(s: ArmState, cmd: ControlCommandView) -> (ArmState, DataflowAction) {
    match (s, cmd) {
        (ArmState::Idle, ControlCommandView::TorqueOn) => (ArmState::Ready, DataflowAction::Launch),
        (_, ControlCommandView::TorqueOff) => (ArmState::Idle, DataflowAction::Stop),
        (ArmState::Ready, ControlCommandView::StartRecord { .. }) => (
            ArmState::Recording,
            DataflowAction::Nothing,
        ),
        (ArmState::Recording, ControlCommandView::EndRecord { .. }) => (
            ArmState::Ready,
            DataflowAction::Nothing,
        ),
        (ArmState::Recording, ControlCommandView::ReRecord) => (
            ArmState::Recording,
            DataflowAction::Nothing,
        ),
        (ArmState::Recording, ControlCommandView::Stop) => (ArmState::Ready, DataflowAction::Nothing),
        _ => (s, DataflowAction::Nothing),
    }
}

#[derive(Debug)]
pub struct Fsm {
    state: ArmState,
}

impl View for Fsm {
    type V = ArmState;

    closed spec fn view(&self) -> ArmState {
        self.state
    }
}

impl Fsm {
    pub fn new() -> (f: Self)
        ensures
            f@ == ArmState::Idle,
    {
        Fsm { state: ArmState::Idle }
    }

    pub fn current(&self) -> (s: ArmState)
        ensures
            s == self@,
    {
        self.state
    }

    /// Apply a control command. Returns the new state and the dataflow action the
    /// caller must take *after* the transition.
    pub fn apply(&mut self, cmd: &ControlCommand) -> (r: (ArmState, DataflowAction))
        ensures
            r == fsm_step(old(self)@, cmd@),
            final(self)@ == r.0,
    {
        let action = match (self.state, cmd) {
            (ArmState::Idle, ControlCommand::TorqueOn) => {
                self.state = ArmState::Ready;
                DataflowAction::Launch
            },
            (_, ControlCommand::TorqueOff) => {
                self.state = ArmState::Idle;
                DataflowAction::Stop
            },
            (ArmState::Ready, ControlCommand::StartRecord { .. }) => {
                self.state = ArmState::Recording;
                DataflowAction::Nothing
            },
            (ArmState::Recording, ControlCommand::EndRecord { .. }) => {
                self.state = ArmState::Ready;
                DataflowAction::Nothing
            },
            (ArmState::Recording, ControlCommand::ReRecord) => {
                // stays in Recording; the recorder resets internally
                DataflowAction::Nothing
            },
            (ArmState::Recording, ControlCommand::Stop) => {
                self.state = ArmState::Ready;
                DataflowAction::Nothing
            },
            _ => DataflowAction::Nothing,
        };
        (self.state, action)
    }
}

impl Default for Fsm {
    fn default() -> (f: Self)
        ensures
            f@ == ArmState::Idle,
    {
        Fsm::new()
    }
}

/// The label the follower publishes for a state in its status.
pub open spec fn state_label(s: ArmState) -> Seq<char> {
    match s {
        ArmState::Idle => "IDLE"@,
        ArmState::Ready => "READY"@,
        ArmState::Recording => "RECORDING"@,
    }
}

/// What the follower's periodic status says of a state: its label, whether torque is
/// on, and whether an episode is being recorded.
pub fn status_fields(s: ArmState) -> (r: (&'static str, bool, bool))
    ensures
        r.0@ == state_label(s),
        r.1 == torque_on(s),
        r.2 == (s == ArmState::Recording),
{
    match s {
        ArmState::Idle => ("IDLE", false, false),
        ArmState::Ready => ("READY", true, false),
        ArmState::Recording => ("RECORDING", true, true),
    }
}

/// Whether the follower writes received joint targets to the arm in a state: only
/// while torque is on.
pub fn accepts_joint_targets(s: ArmState) -> (r: bool)
    ensures
        r == torque_on(s),
{
    match s {
        ArmState::Idle => false,
        _ => true,
    }
}

/// One pass of the follower loop's observation pacing: the arm is read on every third
/// pass. Given the passes counted since the last read, gives the new count and whether
/// this pass reads.
pub fn observation_pass(counter: u8) -> (r: (u8, bool))
    ensures
        r.1 == (counter >= 2),
        r.0 == (if counter >= 2 {
            0
        } else {
            counter + 1
        }),
{
    if counter >= 2 {
        (0, true)
    } else {
        (counter + 1, false)
    }
}

/// Whether torque is on in a state (Ready and Recording).
pub open spec fn torque_on(s: ArmState) -> bool {
    s != ArmState::Idle
}

/// Whether the dataflow runs after `action`, given whether it ran before.
pub open spec fn dataflow_after(running: bool, action: DataflowAction) -> bool {
    match action {
        DataflowAction::Launch => true,
        DataflowAction::Stop => false,
        DataflowAction::Nothing => running,
    }
}

/// The operator actions the console offers in each state: Idle offers torque-on;
/// Ready offers torque-off and start; Recording offers torque-off, save, re-record and
/// stop.
pub open spec fn command_available(s: ArmState, cmd: ControlCommandView) -> bool {
    match s {
        ArmState::Idle => cmd is TorqueOn,
        ArmState::Ready => cmd is TorqueOff || cmd is StartRecord,
        ArmState::Recording => cmd is TorqueOff || cmd is EndRecord || cmd is ReRecord
            || cmd is Stop,
    }
}

/// TorqueOff returns to Idle from any state and stops the dataflow.
pub proof fn lemma_torque_off_from_any_state(s: ArmState)
    ensures
        fsm_step(s, ControlCommandView::TorqueOff) == (ArmState::Idle, DataflowAction::Stop),
{
}

/// The dataflow runs exactly while torque is on: a caller that performs every action
/// the machine asks for keeps "dataflow running" equal to "state is Ready or
/// Recording".
pub proof fn lemma_dataflow_runs_while_torque_on(s: ArmState, cmd: ControlCommandView)
    ensures
        dataflow_after(torque_on(s), fsm_step(s, cmd).1) == torque_on(fsm_step(s, cmd).0),
{
}

/// Only a command the console offers in a state changes the state, and every command
/// it offers except re-record does change it.
pub proof fn lemma_state_changes_only_by_offered_commands(s: ArmState, cmd: ControlCommandView)
    ensures
        fsm_step(s, cmd).0 != s ==> command_available(s, cmd),
        command_available(s, cmd) && !(cmd is ReRecord) ==> fsm_step(s, cmd).0 != s,
        !command_available(s, cmd) ==> fsm_step(s, cmd).1 != DataflowAction::Launch,
{
}

/// Recording is entered only from Ready, by StartRecord, and the dataflow is
/// launched only by TorqueOn from Idle.
pub proof fn lemma_recording_entered_from_ready(s: ArmState, cmd: ControlCommandView)
    ensures
        fsm_step(s, cmd).0 == ArmState::Recording && s != ArmState::Recording ==> s
            == ArmState::Ready && cmd is StartRecord,
        fsm_step(s, cmd).1 == DataflowAction::Launch <==> (s == ArmState::Idle
            && cmd is TorqueOn),
        fsm_step(s, cmd).1 == DataflowAction::Stop <==> cmd is TorqueOff,
{
}

} // verus!
