//! QoS profiles and logical channels.

use vstd::prelude::*;

verus! {

/// Logical streams multiplexed over one or more transports. Media (cameras)
/// gets its own channel so it cannot starve the control loop.
#[derive(Debug, Clone, Copy, PartialEq, Eq, Structural)]
pub enum Channel {
    Handshake,
    Control,
    Feedback,
    Telemetry,
    Media,
    /// Episode boundaries (operator marks an episode at its end).
    Episode,
}

/// The wire byte that stands for each channel.
pub open spec fn channel_code(c: Channel) -> u8 {
    match c {
        Channel::Handshake => 0,
        Channel::Control => 1,
        Channel::Feedback => 2,
        Channel::Telemetry => 3,
        Channel::Media => 4,
        Channel::Episode => 5,
    }
}

/// The channel a wire byte names, if any.
pub open spec fn channel_of_code(b: u8) -> Option<Channel> {
    if b == 0 {
        Some(Channel::Handshake)
    } else if b == 1 {
        Some(Channel::Control)
    } else if b == 2 {
        Some(Channel::Feedback)
    } else if b == 3 {
        Some(Channel::Telemetry)
    } else if b == 4 {
        Some(Channel::Media)
    } else if b == 5 {
        Some(Channel::Episode)
    } else {
        None
    }
}

impl Channel {
    pub fn as_u8(self) -> (b: u8)
        ensures
            b == channel_code(self),
    {
        match self {
            Channel::Handshake => 0,
            Channel::Control => 1,
            Channel::Feedback => 2,
            Channel::Telemetry => 3,
            Channel::Media => 4,
            Channel::Episode => 5,
        }
    }

    pub fn from_u8(b: u8) -> (r: Option<Self>)
        ensures
            r == channel_of_code(b),
    {
        match b {
            0 => Some(Channel::Handshake),
            1 => Some(Channel::Control),
            2 => Some(Channel::Feedback),
            3 => Some(Channel::Telemetry),
            4 => Some(Channel::Media),
            5 => Some(Channel::Episode),
            _ => None,
        }
    }
}

/// Decoding the byte of a channel gives the channel back.
pub proof fn lemma_channel_code_roundtrip(c: Channel)
    ensures
        channel_of_code(channel_code(c)) == Some(c),
{
}

/// A byte that names a channel is that channel's byte: the code is one-to-one.
pub proof fn lemma_channel_code_canonical(b: u8)
    ensures
        channel_of_code(b) matches Some(c) ==> channel_code(c) == b,
        channel_of_code(b) is Some <==> b < 6,
{
}

#[derive(Debug, Clone, Copy, PartialEq, Eq, Structural)]
pub enum Reliability {
    /// Newest-wins; a dropped high-rate control sample beats a stale queued one.
    BestEffort,
    /// Retransmit until delivered (handshake, mode change, e-stop).
    Reliable,
}

#[derive(Debug, Clone, Copy, PartialEq, Eq, Structural)]
pub enum History {
    KeepLast(u32),
    KeepAll,
}

#[derive(Debug, Clone, Copy, PartialEq, Structural)]
pub struct Qos {
    pub reliability: Reliability,
    pub history: History,
    pub deadline_hz: Option<u32>,
    pub priority: u8,
}

impl Qos {
    /// High-rate control / haptic feedback: newest wins.
    pub fn realtime() -> (q: Self)
        ensures
            q == (Qos {
                reliability: Reliability::BestEffort,
                history: History::KeepLast(1),
                deadline_hz: None,
                priority: 200,
            }),
    {
        Qos {
            reliability: Reliability::BestEffort,
            history: History::KeepLast(1),
            deadline_hz: None,
            priority: 200,
        }
    }

    /// Handshake, mode change, e-stop: must arrive.
    pub fn reliable() -> (q: Self)
        ensures
            q == (Qos {
                reliability: Reliability::Reliable,
                history: History::KeepAll,
                deadline_hz: None,
                priority: 255,
            }),
    {
        Qos {
            reliability: Reliability::Reliable,
            history: History::KeepAll,
            deadline_hz: None,
            priority: 255,
        }
    }
}

} // verus!
