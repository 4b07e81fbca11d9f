//! The typed failures of construction and rendering.

use vstd::prelude::*;
use vstd::string::StringExecFns;

verus! {

/// Which step of the view's work failed.
#[derive(Clone, Copy, Debug, PartialEq, Eq, Structural)]
pub enum FailureKind {
    /// The template root is missing.
    Construction,
    /// The watching environment could not be made anew, as when its root is
    /// gone.
    Rebuild,
    /// The named template was not found or did not parse.
    Lookup,
    /// The template was found but failed while it ran.
    Execution,
}

/// A failure of the view: the step that failed and a readable diagnostic.
#[derive(Clone, Debug)]
pub struct ViewError {
    pub kind: FailureKind,
    pub message: String,
}

/// The text of a construction failure for the root `path`.
pub open spec fn missing_root_text(path: Seq<char>) -> Seq<char> {
    "missing templates directory: `"@ + path + "`"@
}

/// `message` is the text that the engine's error `cause` displays as.
pub open spec fn is_diagnostic(cause: minijinja::Error, message: String) -> bool {
    vstd::string::to_string_from_display_ensures::<minijinja::Error>(&cause, message)
}

/// What a step of kind `kind` hands on for the engine's answer `outcome`: a
/// success is kept as it is, a failure becomes `failure`.
pub open spec fn stage_outcome<T>(
    kind: FailureKind,
    outcome: Result<T, minijinja::Error>,
    staged: Result<T, ViewError>,
) -> bool {
    match outcome {
        Ok(value) => staged == Ok::<T, ViewError>(value),
        Err(cause) => staged matches Err(failure) && failure.kind == kind && is_diagnostic(
            cause,
            failure.message,
        ),
    }
}

/// Builds the message that names a missing template root.
pub fn missing_root_message(path: &str) -> (message: String)
    ensures
        message@ == missing_root_text(path@),
{
    let mut message = String::from_str("missing templates directory: `");
    message.append(path);
    message.append("`");
    message
}

impl ViewError {
    /// The failure of constructing a view over the missing root `path`.
    pub fn missing_root(path: &str) -> (failure: ViewError)
        ensures
            failure.kind == FailureKind::Construction,
            failure.message@ == missing_root_text(path@),
    {
        ViewError { kind: FailureKind::Construction, message: missing_root_message(path) }
    }

    /// The failure of the step `kind`, carrying the engine's own diagnostic.
    pub fn from_engine(kind: FailureKind, cause: &minijinja::Error) -> (failure: ViewError)
        ensures
            failure.kind == kind,
            is_diagnostic(*cause, failure.message),
    {
        ViewError { kind, message: cause.to_string() }
    }

    /// The diagnostic, as text to show.
    pub fn describe(&self) -> (text: String)
        ensures
            text@ == self.message@,
    {
        self.message.clone()
    }
}

/// Hands on the engine's answer at the step `kind`: a success passes through
/// unchanged, a failure becomes a `ViewError` of that kind with the engine's
/// diagnostic.
pub fn stage_result<T>(kind: FailureKind, outcome: Result<T, minijinja::Error>) -> (staged: Result<
    T,
    ViewError,
>)
    ensures
        stage_outcome(kind, outcome, staged),
{
    match outcome {
        Ok(value) => Ok(value),
        Err(cause) => Err(ViewError::from_engine(kind, &cause)),
    }
}

} // verus!
