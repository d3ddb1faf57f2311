//! The single error type that every fallible operation of this crate reports.

use vstd::prelude::*;
use vstd::string::StringExecFns;

verus! {

/// Error taxonomy of the crate. Usage errors and resolution errors are fatal
/// to a run; each variant carries a human-readable context string.
#[derive(Debug, PartialEq)]
pub enum RemoteBuildError {
    /// A value could not be converted to the required form.
    ConversionError(String),
    /// An input/output operation failed (constructed by callers of the library).
    Io(String),
    /// A JSON document could not be read (constructed by callers of the library).
    SerdeJsonError(String),
    /// An expected value was absent.
    NoneError,
    /// A shell probe failed (constructed by callers of the library).
    ShellFnError(String),
    /// A lookup or a parse produced no usable result.
    EmptyError(String),
    /// A string could not be parsed as a URL.
    ParseError(String),
    /// The flavor inputs were contradictory or unusable.
    FlavorError(String),
    /// A collaborator failed for another reason.
    FailureError(String),
    /// A package-index record was malformed.
    GpiRecordFailure(String),
}

/// The rendered form of an error, as it is shown to the user.
pub open spec fn error_message_spec(e: &RemoteBuildError) -> Seq<char> {
    match e {
        RemoteBuildError::ConversionError(s) => "ConversionError: "@ + s@,
        RemoteBuildError::Io(s) => "Io: "@ + s@,
        RemoteBuildError::SerdeJsonError(s) => "SerdeJsonError: "@ + s@,
        RemoteBuildError::NoneError => "NoneError"@,
        RemoteBuildError::ShellFnError(s) => "ShellFnError: "@ + s@,
        RemoteBuildError::EmptyError(s) => "EmptyError: "@ + s@,
        RemoteBuildError::ParseError(s) => "ParseError: "@ + s@,
        RemoteBuildError::FlavorError(s) => "FlavorError: "@ + s@,
        RemoteBuildError::FailureError(s) => "FailureError: "@ + s@,
        RemoteBuildError::GpiRecordFailure(s) => "Gpi Record Failure: "@ + s@,
    }
}

impl RemoteBuildError {
    /// Render the error for the user.
    pub fn message(&self) -> (r: String)
        ensures
            r@ == error_message_spec(self),
    {
        let (head, tail): (&str, Option<&String>) = match self {
            RemoteBuildError::ConversionError(s) => ("ConversionError: ", Some(s)),
            RemoteBuildError::Io(s) => ("Io: ", Some(s)),
            RemoteBuildError::SerdeJsonError(s) => ("SerdeJsonError: ", Some(s)),
            RemoteBuildError::NoneError => ("NoneError", None),
            RemoteBuildError::ShellFnError(s) => ("ShellFnError: ", Some(s)),
            RemoteBuildError::EmptyError(s) => ("EmptyError: ", Some(s)),
            RemoteBuildError::ParseError(s) => ("ParseError: ", Some(s)),
            RemoteBuildError::FlavorError(s) => ("FlavorError: ", Some(s)),
            RemoteBuildError::FailureError(s) => ("FailureError: ", Some(s)),
            RemoteBuildError::GpiRecordFailure(s) => ("Gpi Record Failure: ", Some(s)),
        };
        let mut out = head.to_owned();
        match tail {
            Some(s) => {
                out.append(s.as_str());
            },
            None => {
                assert(out@ =~= out@ + Seq::<char>::empty());
            },
        }
        out
    }
}

} // verus!
