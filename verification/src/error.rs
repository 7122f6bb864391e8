use vstd::prelude::*;
use vstd::string::StringExecFns;

verus! {

/// Failure of the search backend: the catalog's response could not be
/// understood, or the transport layer failed before a response arrived.
#[derive(Clone, Copy, Debug, PartialEq, Eq, Structural)]
pub enum BackendError {
    MalformedResponse,
    Transport,
}

/// Failure while obtaining a local audio file: the external download tool
/// failed or its output did not name a destination file.
#[derive(Clone, Copy, Debug, PartialEq, Eq, Structural)]
pub enum FetchError {
    ToolFailure,
}

/// Errors of the session engine itself. These end the session rather than
/// being silently absorbed: a wrong selection would play the wrong media.
#[derive(Clone, Copy, Debug, PartialEq, Eq, Structural)]
pub enum SessionError {
    /// A command needed a current selection and none was set.
    NoSelection,
    /// A selection argument was not a number or was out of range.
    BadSelection,
    /// Cycling was requested while the result set is empty.
    EmptyResults,
    /// The search backend failed.
    Backend(BackendError),
}

impl SessionError {
    /// A short description of the error for the output stream.
    pub fn describe(&self) -> (r: String)
        ensures
            r@ == self.spec_describe(),
    {
        match self {
            SessionError::NoSelection => String::from_str("No current selection"),
            SessionError::BadSelection => String::from_str("Bad selection index"),
            SessionError::EmptyResults => String::from_str("No results to cycle through"),
            SessionError::Backend(BackendError::MalformedResponse) => String::from_str(
                "Backend returned a malformed response",
            ),
            SessionError::Backend(BackendError::Transport) => String::from_str(
                "Backend could not be reached",
            ),
        }
    }

    pub open spec fn spec_describe(&self) -> Seq<char> {
        match self {
            SessionError::NoSelection => "No current selection"@,
            SessionError::BadSelection => "Bad selection index"@,
            SessionError::EmptyResults => "No results to cycle through"@,
            SessionError::Backend(BackendError::MalformedResponse) => (
            "Backend returned a malformed response"@),
            SessionError::Backend(BackendError::Transport) => "Backend could not be reached"@,
        }
    }
}

} // verus!
