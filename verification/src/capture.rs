//! What the recording pipeline's capture node forwards: the episode boundaries of the
//! operator's control commands, tagged as the recorder expects them, and samples at
//! no more than about 30 Hz.

use vstd::prelude::*;
use crate::messages::control::ControlCommand;
use crate::messages::episode::EpisodeOutcome;
use std::time::Duration;
use crate::time::{duration_exceeds, duration_from_millis, span_from_millis, span_longer};

verus! {

/// An episode boundary handed to the recorder.
#[derive(Debug, Clone, PartialEq)]
pub enum EpisodeSignal {
    Start { task: String },
    End { outcome: EpisodeOutcome },
    ReRecord,
    Stop,
}

/// The name the recorder knows an outcome by.
pub open spec fn outcome_name_spec(o: EpisodeOutcome) -> Seq<char> {
    match o {
        EpisodeOutcome::Success => "Success"@,
        EpisodeOutcome::Fail => "Fail"@,
        EpisodeOutcome::Rerecord => "Rerecord"@,
    }
}

/// The command tag the recorder receives with each signal.
pub open spec fn signal_tag_spec(s: EpisodeSignal) -> Seq<char> {
    match s {
        EpisodeSignal::Start { .. } => "StartRecord"@,
        EpisodeSignal::End { .. } => "EndRecord"@,
        EpisodeSignal::ReRecord => "ReRecord"@,
        EpisodeSignal::Stop => "Stop"@,
    }
}

pub fn outcome_name(o: EpisodeOutcome) -> (s: &'static str)
    ensures
        s@ == outcome_name_spec(o),
{
    match o {
        EpisodeOutcome::Success => "Success",
        EpisodeOutcome::Fail => "Fail",
        EpisodeOutcome::Rerecord => "Rerecord",
    }
}

impl EpisodeSignal {
    pub fn tag(&self) -> (s: &'static str)
        ensures
            s@ == signal_tag_spec(*self),
    {
        match self {
            EpisodeSignal::Start { .. } => "StartRecord",
            EpisodeSignal::End { .. } => "EndRecord",
            EpisodeSignal::ReRecord => "ReRecord",
            EpisodeSignal::Stop => "Stop",
        }
    }
}

/// Whether a sample (action or observation) is forwarded to the recorder, given the
/// time since the last observation was forwarded: the recorder is fed at most about
/// 30 Hz, so a sample is dropped until 33 ms have passed. Only a forwarded
/// observation restarts that time.
pub fn sample_due(since_last: Duration) -> (r: bool)
    ensures
        r == !span_longer(span_from_millis(33), since_last),
{
    let interval = duration_from_millis(33);
    !duration_exceeds(&interval, &since_last)
}

/// The episode boundary a control command marks: starting, ending, re-recording and
/// stopping are forwarded; torque commands are not.
pub fn episode_signal(cmd: ControlCommand) -> (r: Option<EpisodeSignal>)
    ensures
        match cmd {
            ControlCommand::StartRecord { task } => r matches Some(EpisodeSignal::Start { task: t })
                && t == task,
            ControlCommand::EndRecord { outcome } => r == Some(EpisodeSignal::End { outcome }),
            ControlCommand::ReRecord => r == Some(EpisodeSignal::ReRecord),
            ControlCommand::Stop => r == Some(EpisodeSignal::Stop),
            ControlCommand::TorqueOn | ControlCommand::TorqueOff => r is None,
        },
{
    match cmd {
        ControlCommand::StartRecord { task } => Some(EpisodeSignal::Start { task }),
        ControlCommand::EndRecord { outcome } => Some(EpisodeSignal::End { outcome }),
        ControlCommand::ReRecord => Some(EpisodeSignal::ReRecord),
        ControlCommand::Stop => Some(EpisodeSignal::Stop),
        _ => None,
    }
}

} // verus!
