//! Canonical teleoperation message contract: the parts of it that carry no
//! floating-point data.

pub mod capability;
pub mod codec;
pub mod control;
pub mod episode;
pub mod error;
pub mod feedback;
pub mod header;
