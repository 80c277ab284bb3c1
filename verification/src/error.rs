//! The error taxonomy of the portal client.

use vstd::prelude::*;

verus! {

/// Desktop portal error.
///
/// Every fallible operation of this crate distinguishes four failure kinds,
/// so a caller can tell "the user declined" apart from "the protocol broke".
#[derive(Debug, Clone, PartialEq, Eq)]
pub enum PortalError {
    /// A generic error string describing the problem.
    Generic(String),
    /// An error reported by the message-bus transport. Always fatal to the
    /// operation in progress; never retried.
    DBus(String),
    /// A response's payload did not match the expected shape.
    Parse,
    /// The remote service reported a non-zero response status: the user
    /// declined, or the remote otherwise rejected the request.
    Cancelled,
}

impl core::convert::From<String> for PortalError {
    /// A bare error string is the generic error.
    fn from(error_string: String) -> (r: PortalError) {
        PortalError::Generic(error_string)
    }
}

impl vstd::std_specs::convert::FromSpecImpl<String> for PortalError {
    open spec fn obeys_from_spec() -> bool {
        true
    }

    open spec fn from_spec(error_string: String) -> PortalError {
        PortalError::Generic(error_string)
    }
}

impl PortalError {
    /// A short human-readable description of the error kind.
    pub fn message(&self) -> (r: String)
        ensures
            r@ == self.message_spec(),
    {
        match self {
            PortalError::Generic(s) => {
                let mut m = String::from_str("portal error: ");
                m.append(s.as_str());
                m
            },
            PortalError::DBus(s) => {
                let mut m = String::from_str("transport error: ");
                m.append(s.as_str());
                m
            },
            PortalError::Parse => String::from_str("malformed portal response"),
            PortalError::Cancelled => String::from_str("cancelled by the user"),
        }
    }

    /// What `message` returns, as a sequence of characters.
    pub open spec fn message_spec(&self) -> Seq<char> {
        match self {
            PortalError::Generic(s) => "portal error: "@ + s@,
            PortalError::DBus(s) => "transport error: "@ + s@,
            PortalError::Parse => "malformed portal response"@,
            PortalError::Cancelled => "cancelled by the user"@,
        }
    }
}

} // verus!
