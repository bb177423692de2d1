//! The failure value that every operation of the service reports.

use crate::error_kind::{CHANNEL_COMMUNICATION_FAILURE, GIT_ERROR};
use vstd::prelude::*;
use vstd::string::StringExecFns;

verus! {

/// What an [`Error`] holds, as plain text.
pub struct ErrorView {
    pub kind: Seq<char>,
    pub message: Seq<char>,
}

/// A failure: a stable kind, by which callers classify it, and a message for people.
#[derive(Debug, PartialEq)]
pub struct Error {
    error_kind: String,
    message: String,
}

impl View for Error {
    type V = ErrorView;

    closed spec fn view(&self) -> ErrorView {
        ErrorView { kind: self.error_kind@, message: self.message@ }
    }
}

impl Clone for Error {
    fn clone(&self) -> (copy: Self)
        ensures
            copy@ == self@,
    {
        Error { error_kind: self.error_kind.clone(), message: self.message.clone() }
    }
}

/// The text by which a failure is shown: its kind, a colon and a space, its message.
pub open spec fn rendered(error: ErrorView) -> Seq<char> {
    error.kind + ": "@ + error.message
}

/// `lead` followed by `cause`, as one owned text.
pub fn prefixed(lead: &str, cause: &str) -> (text: String)
    ensures
        text@ == lead@ + cause@,
{
    let mut text = String::from_str(lead);
    text.append(cause);
    text
}

impl Error {
    pub fn new(error_kind: String, message: String) -> (error: Self)
        ensures
            error@ == (ErrorView { kind: error_kind@, message: message@ }),
    {
        Error { error_kind, message }
    }

    pub fn error_kind(&self) -> (kind: &str)
        ensures
            kind@ == self@.kind,
    {
        self.error_kind.as_str()
    }

    pub fn message(&self) -> (message: &str)
        ensures
            message@ == self@.message,
    {
        self.message.as_str()
    }

    /// The failure as one line of text.
    pub fn to_string(&self) -> (text: String)
        ensures
            text@ == rendered(self@),
    {
        let mut text = self.error_kind.clone();
        text.append(": ");
        text.append(self.message.as_str());
        text
    }
}

/// A failure of one of the service's collaborators, classified for its callers.
pub struct ConfigError(pub Error);

impl ConfigError {
    /// A failure that the version control library reported with `message`.
    pub fn from_git(message: &str) -> (error: Self)
        ensures
            error.0@ == (ErrorView { kind: GIT_ERROR@, message: message@ }),
    {
        ConfigError(Error::new(String::from_str(GIT_ERROR), String::from_str(message)))
    }

    /// A failure of the operating system, whose own kind and message are kept.
    pub fn from_io(kind: &str, message: &str) -> (error: Self)
        ensures
            error.0@ == (ErrorView { kind: kind@, message: message@ }),
    {
        ConfigError(Error::new(String::from_str(kind), String::from_str(message)))
    }

    /// No reply came back: the reply channel was closed, as `cause` tells.
    pub fn from_receive(cause: &str) -> (error: Self)
        ensures
            error.0@ == (ErrorView {
                kind: CHANNEL_COMMUNICATION_FAILURE@,
                message: "failed to receive value: "@ + cause@,
            }),
    {
        ConfigError(
            Error::new(
                String::from_str(CHANNEL_COMMUNICATION_FAILURE),
                prefixed("failed to receive value: ", cause),
            ),
        )
    }

    /// The request could not be handed to a worker, as `cause` tells.
    pub fn from_send(cause: &str) -> (error: Self)
        ensures
            error.0@ == (ErrorView {
                kind: CHANNEL_COMMUNICATION_FAILURE@,
                message: "failed to send request: "@ + cause@,
            }),
    {
        ConfigError(
            Error::new(
                String::from_str(CHANNEL_COMMUNICATION_FAILURE),
                prefixed("failed to send request: ", cause),
            ),
        )
    }
}

impl From<ConfigError> for Error {
    fn from(value: ConfigError) -> (error: Error) {
        value.0
    }
}

impl vstd::std_specs::convert::FromSpecImpl<ConfigError> for Error {
    open spec fn obeys_from_spec() -> bool {
        true
    }

    open spec fn from_spec(value: ConfigError) -> Error {
        value.0
    }
}

} // verus!
