//! The error taxonomy of microphone operations.

use vstd::prelude::*;

verus! {

/// Why a microphone operation failed.
///
/// `CommandFailed`: the external process could not run or exited nonzero.
/// `ParseError`: a query returned text in an unexpected format.
/// `SystemError`: the operation is unsupported on the current platform.
#[derive(Debug)]
pub enum MicrophoneError {
    CommandFailed(String),
    ParseError(String),
    SystemError(String),
}

impl MicrophoneError {
    /// The user-visible message: the variant's description followed by its detail.
    pub fn message(&self) -> (r: String)
        ensures
            self matches MicrophoneError::CommandFailed(m) ==> r@ == "Command failed: "@ + m@,
            self matches MicrophoneError::ParseError(m) ==> r@ == "Parse error: "@ + m@,
            self matches MicrophoneError::SystemError(m) ==> r@ == "System error: "@ + m@,
    {
        match self {
            MicrophoneError::CommandFailed(m) => String::from_str("Command failed: ").concat(
                m.as_str(),
            ),
            MicrophoneError::ParseError(m) => String::from_str("Parse error: ").concat(m.as_str()),
            MicrophoneError::SystemError(m) => String::from_str("System error: ").concat(
                m.as_str(),
            ),
        }
    }
}

impl PartialEq for MicrophoneError {
    fn eq(&self, other: &Self) -> (r: bool) {
        match (self, other) {
            (MicrophoneError::CommandFailed(a), MicrophoneError::CommandFailed(b)) => *a == *b,
            (MicrophoneError::ParseError(a), MicrophoneError::ParseError(b)) => *a == *b,
            (MicrophoneError::SystemError(a), MicrophoneError::SystemError(b)) => *a == *b,
            _ => false,
        }
    }
}

impl vstd::std_specs::cmp::PartialEqSpecImpl for MicrophoneError {
    open spec fn obeys_eq_spec() -> bool {
        true
    }

    open spec fn eq_spec(&self, other: &Self) -> bool {
        match (self, other) {
            (MicrophoneError::CommandFailed(a), MicrophoneError::CommandFailed(b)) => a@ == b@,
            (MicrophoneError::ParseError(a), MicrophoneError::ParseError(b)) => a@ == b@,
            (MicrophoneError::SystemError(a), MicrophoneError::SystemError(b)) => a@ == b@,
            _ => false,
        }
    }
}

} // verus!
