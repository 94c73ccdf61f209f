//! Daemon control commands sent from the leader to the follower daemon.

use vstd::prelude::*;
use crate::messages::episode::EpisodeOutcome;

verus! {

/// State-machine command sent from leader to follower-daemon.
#[derive(Debug, Clone, PartialEq)]
pub enum ControlCommand {
    /// Enable torque + start the recording dataflow (Idle to Ready).
    TorqueOn,
    /// Disable torque + stop the recording dataflow (any state to Idle).
    TorqueOff,
    /// Begin a new recording episode (Ready to Recording).
    StartRecord { task: String },
    /// Finish the current episode with an outcome (Recording to Ready).
    EndRecord { outcome: EpisodeOutcome },
    /// Discard the current episode, immediately start a new one (Recording to Recording).
    ReRecord,
    /// Stop recording, return to Ready (Recording to Ready).
    Stop,
}

/// A control command as a mathematical value (the task name as its characters).
pub ghost enum ControlCommandView {
    TorqueOn,
    TorqueOff,
    StartRecord { task: Seq<char> },
    EndRecord { outcome: EpisodeOutcome },
    ReRecord,
    Stop,
}

impl View for ControlCommand {
    type V = ControlCommandView;

    open spec fn view(&self) -> ControlCommandView {
        match self {
            ControlCommand::TorqueOn => ControlCommandView::TorqueOn,
            ControlCommand::TorqueOff => ControlCommandView::TorqueOff,
            ControlCommand::StartRecord { task } => ControlCommandView::StartRecord { task: task@ },
            ControlCommand::EndRecord { outcome } => ControlCommandView::EndRecord {
                outcome: *outcome,
            },
            ControlCommand::ReRecord => ControlCommandView::ReRecord,
            ControlCommand::Stop => ControlCommandView::Stop,
        }
    }
}

/// The view of an optional command.
pub open spec fn opt_command_view(c: Option<ControlCommand>) -> Option<ControlCommandView> {
    match c {
        Some(c) => Some(c@),
        None => None,
    }
}

} // verus!
