//! What can go wrong with a transcode, and the message that the caller sees.

use vstd::prelude::*;
use vstd::string::StringExecFns;
use vstd::std_specs::convert::FromSpecImpl;

verus! {

/// What a result holds: the view of its value or of its error.
pub open spec fn result_view<T: View, E: View>(r: Result<T, E>) -> Result<T::V, E::V> {
    match r {
        Ok(value) => Ok(value@),
        Err(e) => Err(e@),
    }
}

/// The failures of a transcode.
#[derive(Debug, Clone, PartialEq, Eq)]
pub enum TranscodeError {
    /// A tool was found neither on the search path nor among the bundled
    /// locations; holds the tool's name.
    ToolNotFound(String),
    /// A request that cannot be dispatched: an empty batch, lists of unequal
    /// length, a malformed segment.
    InvalidInput(String),
    /// The probe failed, wrote a report that cannot be decoded, or found no
    /// video stream.
    ProbeFailed(String),
    /// The encoder could not be started.
    ProcessSpawnFailed(String),
    /// The encoder ended with a failure status.
    ProcessFailed(String),
    /// The encoder's diagnostic stream could not be read to its end.
    StreamReadFailed(String),
}

/// What a `TranscodeError` holds.
pub enum TranscodeErrorView {
    ToolNotFound(Seq<char>),
    InvalidInput(Seq<char>),
    ProbeFailed(Seq<char>),
    ProcessSpawnFailed(Seq<char>),
    ProcessFailed(Seq<char>),
    StreamReadFailed(Seq<char>),
}

impl View for TranscodeError {
    type V = TranscodeErrorView;

    open spec fn view(&self) -> TranscodeErrorView {
        match self {
            TranscodeError::ToolNotFound(s) => TranscodeErrorView::ToolNotFound(s@),
            TranscodeError::InvalidInput(s) => TranscodeErrorView::InvalidInput(s@),
            TranscodeError::ProbeFailed(s) => TranscodeErrorView::ProbeFailed(s@),
            TranscodeError::ProcessSpawnFailed(s) => TranscodeErrorView::ProcessSpawnFailed(s@),
            TranscodeError::ProcessFailed(s) => TranscodeErrorView::ProcessFailed(s@),
            TranscodeError::StreamReadFailed(s) => TranscodeErrorView::StreamReadFailed(s@),
        }
    }
}

impl DeepView for TranscodeError {
    type V = TranscodeErrorView;

    open spec fn deep_view(&self) -> TranscodeErrorView {
        self@
    }
}

impl TranscodeErrorView {
    /// The message of the error.
    pub open spec fn message(self) -> Seq<char> {
        match self {
            TranscodeErrorView::ToolNotFound(name) => name + " not found in system PATH"@,
            TranscodeErrorView::InvalidInput(detail) => "Invalid input file: "@ + detail,
            TranscodeErrorView::ProbeFailed(detail) => "Failed to read media info: "@ + detail,
            TranscodeErrorView::ProcessSpawnFailed(detail) => "Transcoding failed: "@ + detail,
            TranscodeErrorView::ProcessFailed(detail) => "Transcoding failed: "@ + detail,
            TranscodeErrorView::StreamReadFailed(detail) => "Transcoding failed: "@ + detail,
        }
    }
}

impl TranscodeError {
    /// The message of the error.
    pub fn message(&self) -> (text: String)
        ensures
            text@ == self@.message(),
    {
        match self {
            TranscodeError::ToolNotFound(name) => name.clone().concat(" not found in system PATH"),
            TranscodeError::InvalidInput(detail) => "Invalid input file: ".to_owned().concat(
                detail.as_str(),
            ),
            TranscodeError::ProbeFailed(detail) => "Failed to read media info: ".to_owned().concat(
                detail.as_str(),
            ),
            TranscodeError::ProcessSpawnFailed(detail) => "Transcoding failed: ".to_owned().concat(
                detail.as_str(),
            ),
            TranscodeError::ProcessFailed(detail) => "Transcoding failed: ".to_owned().concat(
                detail.as_str(),
            ),
            TranscodeError::StreamReadFailed(detail) => "Transcoding failed: ".to_owned().concat(
                detail.as_str(),
            ),
        }
    }
}

/// The error that a command hands to its caller: a message and nothing else.
#[derive(Debug, Clone, PartialEq, Eq)]
pub struct CmdError {
    pub message: String,
}

/// What a `CmdError` holds.
pub struct CmdErrorView {
    pub message: Seq<char>,
}

impl View for CmdError {
    type V = CmdErrorView;

    open spec fn view(&self) -> CmdErrorView {
        CmdErrorView { message: self.message@ }
    }
}

impl DeepView for CmdError {
    type V = CmdErrorView;

    open spec fn deep_view(&self) -> CmdErrorView {
        self@
    }
}

impl FromSpecImpl<TranscodeError> for CmdError {
    /// The conversion is stated on `from` itself, over the views.
    open spec fn obeys_from_spec() -> bool {
        false
    }

    open spec fn from_spec(err: TranscodeError) -> CmdError {
        arbitrary()
    }
}

impl From<TranscodeError> for CmdError {
    /// The command error that carries the message of `err`.
    fn from(err: TranscodeError) -> (out: CmdError)
        ensures
            out@.message == err@.message(),
    {
        CmdError { message: err.message() }
    }
}

} // verus!
