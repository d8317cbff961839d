//! Why a write is refused.

use vstd::prelude::*;
use vstd::string::*;

verus! {

/// An argument of a write.
#[derive(Clone, Copy, Debug, PartialEq, Eq, Structural)]
pub enum Argument {
    SessionId,
    ScoreHash,
}

/// The failure of a write. A write fails only because of what it was given,
/// and a failed write changes nothing.
#[derive(Clone, Copy, Debug, PartialEq, Eq, Structural)]
pub enum AttestError {
    /// The named argument was empty.
    InvalidArgument(Argument),
}

impl AttestError {
    /// The text of the failure.
    pub open spec fn spec_message(self) -> Seq<char> {
        match self {
            AttestError::InvalidArgument(Argument::SessionId) => "session_id cannot be empty"@,
            AttestError::InvalidArgument(Argument::ScoreHash) => "score_hash cannot be empty"@,
        }
    }

    /// The failure in words: which argument was refused, and why.
    pub fn message(&self) -> (text: String)
        ensures
            text@ == self.spec_message(),
    {
        match self {
            AttestError::InvalidArgument(Argument::SessionId) => String::from_str(
                "session_id cannot be empty",
            ),
            AttestError::InvalidArgument(Argument::ScoreHash) => String::from_str(
                "score_hash cannot be empty",
            ),
        }
    }
}

/// The failure that a write with these arguments meets, if any. The session
/// identifier is looked at first.
pub open spec fn rejection(session_id: Seq<char>, score_hash: Seq<char>) -> Option<AttestError> {
    if session_id.len() == 0 {
        Some(AttestError::InvalidArgument(Argument::SessionId))
    } else if score_hash.len() == 0 {
        Some(AttestError::InvalidArgument(Argument::ScoreHash))
    } else {
        None
    }
}

/// Decides whether a write with these arguments is accepted.
pub fn check_arguments(session_id: &str, score_hash: &str) -> (verdict: Result<(), AttestError>)
    ensures
        verdict == match rejection(session_id@, score_hash@) {
            Some(failure) => Err::<(), AttestError>(failure),
            None => Ok(()),
        },
{
    if session_id.is_empty() {
        Err(AttestError::InvalidArgument(Argument::SessionId))
    } else if score_hash.is_empty() {
        Err(AttestError::InvalidArgument(Argument::ScoreHash))
    } else {
        Ok(())
    }
}

} // verus!
