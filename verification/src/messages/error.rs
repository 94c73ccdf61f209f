//! Contract-level errors.

use vstd::prelude::*;
use crate::text::{decimal, decimal_string};

verus! {

#[derive(Debug, Clone, PartialEq, Eq)]
pub enum MessageError {
    CodecUnimplemented,
    Decode(String),
    VersionMismatch { expected: u16, got: u16 },
}

impl MessageError {
    /// The text `Display` gives for the error.
    pub open spec fn message_spec(&self) -> Seq<char> {
        match self {
            MessageError::CodecUnimplemented => "codec not implemented (replace PlaceholderCodec)"@,
            MessageError::Decode(m) => "decode error: "@ + m@,
            MessageError::VersionMismatch { expected, got } => "protocol version mismatch: expected "@
                + decimal(*expected as nat) + ", got "@ + decimal(*got as nat),
        }
    }

    /// The human-readable description of the error.
    pub fn message(&self) -> (s: String)
        ensures
            s@ == self.message_spec(),
    {
        match self {
            MessageError::CodecUnimplemented => String::from_str(
                "codec not implemented (replace PlaceholderCodec)",
            ),
            MessageError::Decode(m) => {
                let mut s = String::from_str("decode error: ");
                s.append(m.as_str());
                s
            },
            MessageError::VersionMismatch { expected, got } => {
                let mut s = String::from_str("protocol version mismatch: expected ");
                let e = decimal_string(*expected as u64);
                s.append(e.as_str());
                s.append(", got ");
                let g = decimal_string(*got as u64);
                s.append(g.as_str());
                s
            },
        }
    }
}

} // verus!
