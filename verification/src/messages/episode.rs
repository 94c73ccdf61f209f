//! Episode lifecycle events: the operator marks an episode at its end.

use vstd::prelude::*;

verus! {

/// What to do with the just-ended episode.
#[derive(Debug, Clone, Copy, PartialEq, Eq, Structural)]
pub enum EpisodeOutcome {
    /// Keep it: the recorder calls the writer's *save*.
    Success,
    /// Drop it: the recorder calls the writer's *discard*.
    Fail,
    /// Drop and re-record: treated as *discard* for persistence.
    Rerecord,
}

impl EpisodeOutcome {
    /// `true` when the episode should be kept (saved), `false` when discarded.
    pub fn keep(self) -> (k: bool)
        ensures
            k <==> self == EpisodeOutcome::Success,
    {
        match self {
            EpisodeOutcome::Success => true,
            _ => false,
        }
    }
}

/// Episode boundary signal from the operator-control node.
#[derive(Debug, Clone, Copy, PartialEq, Eq, Structural)]
pub enum EpisodeEvent {
    /// Begin a new episode.
    Start,
    /// End the current episode with an outcome.
    End { outcome: EpisodeOutcome },
    /// End the entire recording session (follower disables torque + exits).
    Stop,
}

} // verus!
