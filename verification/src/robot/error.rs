//! Robot tier errors.

use vstd::prelude::*;

verus! {

#[derive(Debug)]
pub enum RobotError {
    Unsupported(&'static str),
    IkFailed,
    LimitViolation(String),
    Hardware(String),
}

impl RobotError {
    /// The text `Display` gives for the error.
    pub open spec fn message_spec(&self) -> Seq<char> {
        match self {
            RobotError::Unsupported(s) => "unsupported: "@ + s@,
            RobotError::IkFailed => "inverse kinematics failed"@,
            RobotError::LimitViolation(s) => "limit violation: "@ + s@,
            RobotError::Hardware(s) => "hardware error: "@ + s@,
        }
    }

    /// The human-readable description of the error.
    pub fn message(&self) -> (s: String)
        ensures
            s@ == self.message_spec(),
    {
        match self {
            RobotError::Unsupported(what) => {
                let mut s = String::from_str("unsupported: ");
                s.append(what);
                s
            },
            RobotError::IkFailed => String::from_str("inverse kinematics failed"),
            RobotError::LimitViolation(what) => {
                let mut s = String::from_str("limit violation: ");
                s.append(what.as_str());
                s
            },
            RobotError::Hardware(what) => {
                let mut s = String::from_str("hardware error: ");
                s.append(what.as_str());
                s
            },
        }
    }
}

} // verus!
