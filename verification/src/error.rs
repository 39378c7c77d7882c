//! The shared error type and the vocabulary contracts use to speak of it.

use vstd::prelude::*;

verus! {

/// Broad categories used to route recoverable errors across crate boundaries.
#[derive(Clone, Copy, Debug, PartialEq, Eq, Structural)]
#[non_exhaustive]
pub enum ErrorKind {
    /// Input failed validation before any state change was attempted.
    InvalidInput,
    /// A core product invariant would be violated.
    InvariantViolation,
    /// A local filesystem or process operation failed.
    Io,
    /// An external command or protocol peer failed.
    External,
    /// The requested behavior is outside the current implementation stage.
    Unsupported,
    /// An absolute engineering path is outside the explicit local Repository Catalog.
    RepositoryNotConfigured,
    /// Another process currently holds a projection that is never waited for.
    MaintenanceBusy,
}

/// The shared, user-presentable error type.
#[derive(Clone, Debug, PartialEq, Eq)]
pub struct Error {
    kind: ErrorKind,
    message: String,
}

/// What an error says: its category and the text of its message.
pub struct ErrorView {
    pub kind: ErrorKind,
    pub message: Seq<char>,
}

/// Result alias used throughout the crate.
pub type Result<T> = std::result::Result<T, Error>;

impl View for Error {
    type V = ErrorView;

    closed spec fn view(&self) -> ErrorView {
        ErrorView { kind: self.kind, message: self.message@ }
    }
}

impl Error {
    /// Creates an error with a stable category and actionable message.
    pub fn new(kind: ErrorKind, message: &str) -> (error: Self)
        ensures
            error@ == (ErrorView { kind, message: message@ }),
    {
        Error { kind, message: message.to_owned() }
    }

    /// Returns the stable error category.
    #[must_use]
    pub fn kind(&self) -> (kind: ErrorKind)
        ensures
            kind == self@.kind,
    {
        self.kind
    }

    /// Returns the user-presentable error message.
    #[must_use]
    pub fn message(&self) -> (message: &str)
        ensures
            message@ == self@.message,
    {
        self.message.as_str()
    }

    /// Renders the error as its message.
    #[must_use]
    pub fn to_string(&self) -> (text: String)
        ensures
            text@ == self@.message,
    {
        self.message.clone()
    }
}

/// The failure "this input is invalid, with this message".
pub open spec fn invalid(message: Seq<char>) -> Option<ErrorView> {
    Some(ErrorView { kind: ErrorKind::InvalidInput, message })
}

/// The failure "this invariant is violated, with this message".
pub open spec fn violated(message: Seq<char>) -> Option<ErrorView> {
    Some(ErrorView { kind: ErrorKind::InvariantViolation, message })
}

/// The first of two checks that fails, if any does.
pub open spec fn first(left: Option<ErrorView>, right: Option<ErrorView>) -> Option<ErrorView> {
    if left is Some {
        left
    } else {
        right
    }
}

/// `failure` when `condition` holds, success otherwise.
pub open spec fn given(condition: bool, failure: Option<ErrorView>) -> Option<ErrorView> {
    if condition {
        failure
    } else {
        None
    }
}

/// A result fails exactly when `failure` is present, and with that very error.
pub open spec fn fails_as<T>(result: Result<T>, failure: Option<ErrorView>) -> bool {
    match result {
        Ok(_) => failure is None,
        Err(error) => failure == Some(error@),
    }
}

/// An invalid-input error.
pub fn invalid_input(message: &str) -> (error: Error)
    ensures
        Some(error@) == invalid(message@),
{
    Error::new(ErrorKind::InvalidInput, message)
}

/// An invariant error.
pub fn invariant_violation(message: &str) -> (error: Error)
    ensures
        Some(error@) == violated(message@),
{
    Error::new(ErrorKind::InvariantViolation, message)
}

} // verus!
