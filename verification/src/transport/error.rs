//! Transport errors.

use vstd::prelude::*;
use vstd::std_specs::convert::FromSpecImpl;

verus! {

#[verifier::external_type_specification]
#[verifier::external_body]
pub struct ExIoError(std::io::Error);

#[derive(Debug)]
pub enum TransportError {
    Io(std::io::Error),
    /// Backend exists but the operation is not implemented.
    Unsupported(&'static str),
    Closed,
    BadFrame(String),
}

impl TransportError {
    /// The human-readable description of the error. For an I/O error the text after
    /// "io error: " is the I/O error's own description, of which nothing is claimed.
    pub fn message(&self) -> (s: String)
        ensures
            self matches TransportError::Io(_) ==> "io error: "@.is_prefix_of(s@),
            self matches TransportError::Unsupported(w) ==> s@ == "unsupported: "@ + w@,
            self matches TransportError::Closed ==> s@ == "transport closed"@,
            self matches TransportError::BadFrame(w) ==> s@ == "bad frame: "@ + w@,
    {
        match self {
            TransportError::Io(e) => {
                let mut s = String::from_str("io error: ");
                let ghost head = s@;
                let text = e.to_string();
                s.append(text.as_str());
                assert(s@.subrange(0, head.len() as int) =~= head);
                s
            },
            TransportError::Unsupported(what) => {
                let mut s = String::from_str("unsupported: ");
                s.append(what);
                s
            },
            TransportError::Closed => String::from_str("transport closed"),
            TransportError::BadFrame(what) => {
                let mut s = String::from_str("bad frame: ");
                s.append(what.as_str());
                s
            },
        }
    }
}

impl From<std::io::Error> for TransportError {
    fn from(e: std::io::Error) -> (r: Self) {
        TransportError::Io(e)
    }
}

impl FromSpecImpl<std::io::Error> for TransportError {
    open spec fn obeys_from_spec() -> bool {
        true
    }

    open spec fn from_spec(e: std::io::Error) -> TransportError {
        TransportError::Io(e)
    }
}

} // verus!
