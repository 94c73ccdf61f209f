//! Verified core of a leader/follower teleoperation stack: framing and QoS of the
//! transport tier, the message contract, capability negotiation, the session
//! watchdog, the follower daemon's state machine and retry policy, and the small
//! parsers used by the daemons.

pub mod capture;
pub mod daemon;
pub mod messages;
pub mod robot;
pub mod session;
pub mod so101;
pub mod teleop;
pub mod text;
pub mod time;
pub mod transport;
