//! Error kinds of the download engine.

use vstd::prelude::*;

verus! {

/// Failure classes surfaced to the caller: transport failures, explicit
/// non-retryable HTTP statuses, local filesystem failures, and everything
/// else (client construction and the like). Each variant carries a
/// human-readable detail string.
pub enum DmError {
    Network(String),
    HttpStatus(String),
    Io(String),
    Other(String),
}

/// What `DmError::message` returns: the kind's label followed by the detail.
pub open spec fn spec_message(e: &DmError) -> Seq<char> {
    match e {
        DmError::Network(m) => "Network error: "@ + m@,
        DmError::HttpStatus(m) => "HTTP status: "@ + m@,
        DmError::Io(m) => "IO: "@ + m@,
        DmError::Other(m) => "Other: "@ + m@,
    }
}

impl DmError {
    /// A readable description of the failure, prefixed with its kind.
    pub fn message(&self) -> (r: String)
        ensures
            r@ == spec_message(self),
    {
        match self {
            DmError::Network(m) => String::from_str("Network error: ").concat(m.as_str()),
            DmError::HttpStatus(m) => String::from_str("HTTP status: ").concat(m.as_str()),
            DmError::Io(m) => String::from_str("IO: ").concat(m.as_str()),
            DmError::Other(m) => String::from_str("Other: ").concat(m.as_str()),
        }
    }
}

} // verus!
