//! Follower/leader daemon logic: the arm state machine, the retry policy and the
//! operator-input parsers.

pub mod commands;
pub mod config;
pub mod retry;
pub mod state;
