//! Robot tier: errors, the placeholder kinematics solver, and the safety latch that
//! gates commands to an actively driven arm.

pub mod error;
pub mod kinematics;
pub mod safety;

pub use error::RobotError;
pub use kinematics::IdentityKinematics;
pub use safety::SafetyLatch;
