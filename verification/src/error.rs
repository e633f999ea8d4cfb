//! The client's error kinds.
//!
//! Every failure of an ask is surfaced to the caller at once: the client
//! never retries, never defaults silently.

use vstd::prelude::*;

verus! {

/// Errors that can occur when using the confirmation client.
#[derive(Clone, Debug, PartialEq)]
pub enum WaitHumanError {
    /// The poll loop ran out of time waiting for an answer; carries the
    /// elapsed milliseconds measured when the loop gave up.
    Timeout { elapsed_ms: u64 },
    /// A transport-level failure, with its description.
    NetworkError(String),
    /// The creation request came back with a non-success status.
    CreateFailed { status_text: String },
    /// A poll request came back with a non-success status.
    PollFailed { status_text: String },
    /// The answer's content did not have the shape the question asked for.
    UnexpectedAnswerType { expected: String, actual: String },
    /// The human's selection is not a valid index into the choices.
    InvalidSelectedIndex { index: u32 },
    /// A malformed response from the server, or an invalid configuration.
    InvalidResponse(String),
}

/// The mathematical shape of a [`WaitHumanError`].
#[verifier::ext_equal]
pub ghost enum ErrorV {
    Timeout { elapsed_ms: u64 },
    NetworkError(Seq<char>),
    CreateFailed { status_text: Seq<char> },
    PollFailed { status_text: Seq<char> },
    UnexpectedAnswerType { expected: Seq<char>, actual: Seq<char> },
    InvalidSelectedIndex { index: u32 },
    InvalidResponse(Seq<char>),
}

impl DeepView for WaitHumanError {
    type V = ErrorV;

    open spec fn deep_view(&self) -> ErrorV {
        match self {
            WaitHumanError::Timeout { elapsed_ms } => ErrorV::Timeout {
                elapsed_ms: *elapsed_ms,
            },
            WaitHumanError::NetworkError(m) => ErrorV::NetworkError(m@),
            WaitHumanError::CreateFailed { status_text } => ErrorV::CreateFailed {
                status_text: status_text@,
            },
            WaitHumanError::PollFailed { status_text } => ErrorV::PollFailed {
                status_text: status_text@,
            },
            WaitHumanError::UnexpectedAnswerType { expected, actual } => {
                ErrorV::UnexpectedAnswerType { expected: expected@, actual: actual@ }
            },
            WaitHumanError::InvalidSelectedIndex { index } => ErrorV::InvalidSelectedIndex {
                index: *index,
            },
            WaitHumanError::InvalidResponse(m) => ErrorV::InvalidResponse(m@),
        }
    }
}

} // verus!
