//! Failures of a script run and their human-readable descriptions.

use vstd::prelude::*;

verus! {

/// Failures of a script run.
#[derive(Debug, PartialEq, Eq)]
pub enum Error {
    /// A file system or process operation failed; holds its description.
    IO(String),
    /// The path does not name an existing file.
    ScriptNotFound(String),
    /// The file is not a script this host runs: wrong suffix, too large, or not text.
    UnsupportedScript(String),
    /// The decoder exited with a failure status.
    DecodeFailed(String),
    /// The encoder exited with a failure status.
    EncodeFailed(String),
}

/// Mathematical value of an [`Error`].
pub enum ErrorView {
    IO(Seq<char>),
    ScriptNotFound(Seq<char>),
    UnsupportedScript(Seq<char>),
    DecodeFailed(Seq<char>),
    EncodeFailed(Seq<char>),
}

impl View for Error {
    type V = ErrorView;

    open spec fn view(&self) -> ErrorView {
        match self {
            Error::IO(m) => ErrorView::IO(m@),
            Error::ScriptNotFound(p) => ErrorView::ScriptNotFound(p@),
            Error::UnsupportedScript(p) => ErrorView::UnsupportedScript(p@),
            Error::DecodeFailed(p) => ErrorView::DecodeFailed(p@),
            Error::EncodeFailed(p) => ErrorView::EncodeFailed(p@),
        }
    }
}

/// The text `{:?}` writes for a string: quoted, with special characters escaped.
pub uninterp spec fn debug_text(s: Seq<char>) -> Seq<char>;

/// Relies on the `Debug` formatting of `str`, which depends on the text alone.
#[verifier::external_body]
fn debug_quoted(s: &str) -> (r: String)
    ensures
        r@ == debug_text(s@),
{
    format!("{:?}", s)
}

/// Description of an error, as written to `error.log`.
pub open spec fn message_of(e: ErrorView) -> Seq<char> {
    match e {
        ErrorView::IO(m) => "IO: "@ + m,
        ErrorView::ScriptNotFound(p) => "Script not found: "@ + debug_text(p),
        ErrorView::UnsupportedScript(p) => "Unsupported script: "@ + debug_text(p),
        ErrorView::DecodeFailed(p) => "Script decode failed: "@ + debug_text(p),
        ErrorView::EncodeFailed(p) => "Output encode failed: "@ + debug_text(p),
    }
}

impl Error {
    /// Human-readable description of the error.
    pub fn message(&self) -> (r: String)
        ensures
            r@ == message_of(self@),
    {
        match self {
            Error::IO(m) => String::from_str("IO: ").concat(m.as_str()),
            Error::ScriptNotFound(p) => String::from_str("Script not found: ").concat(
                debug_quoted(p.as_str()).as_str(),
            ),
            Error::UnsupportedScript(p) => String::from_str("Unsupported script: ").concat(
                debug_quoted(p.as_str()).as_str(),
            ),
            Error::DecodeFailed(p) => String::from_str("Script decode failed: ").concat(
                debug_quoted(p.as_str()).as_str(),
            ),
            Error::EncodeFailed(p) => String::from_str("Output encode failed: ").concat(
                debug_quoted(p.as_str()).as_str(),
            ),
        }
    }
}

} // verus!
