//! Structured errors crossing the public capability boundary.
//!
//! Every failure carries a stable category and a human-readable detail.
use vstd::prelude::*;

verus! {

/// Stable categories for failures returned through the runtime boundary.
#[derive(Clone, Copy, Debug, PartialEq, Eq, Structural)]
pub enum ErrorCode {
    /// The owning request was cancelled before the operation completed.
    Cancelled,
    /// The requested capability was not granted to this router.
    CapabilityDenied,
    /// A native capability operation failed.
    CapabilityFailed,
    /// A resource limit prevented an operation from completing.
    ResourceLimitExceeded,
    /// An owned task stopped without producing a capability result.
    TaskFailed,
}

/// The mathematical content of a [`RuntimeError`]: its category and its text.
pub struct ErrorModel {
    pub code: ErrorCode,
    pub message: Seq<char>,
}

/// The model of an error with the given category and text.
pub open spec fn error_model(code: ErrorCode, message: Seq<char>) -> ErrorModel {
    ErrorModel { code, message }
}

/// The model of the error every cancelled operation reports.
pub open spec fn cancelled_model() -> ErrorModel {
    error_model(ErrorCode::Cancelled, "request cancelled"@)
}

/// The model of the error every denied capability reports.
pub open spec fn denied_model() -> ErrorModel {
    error_model(ErrorCode::CapabilityDenied, "capability not granted"@)
}

/// The errors every component shares: an error is its category and text, a
/// cancellation reads "request cancelled", and a denial reads "capability
/// not granted".
pub proof fn lemma_error_texts(code: ErrorCode, message: Seq<char>)
    ensures
        error_model(code, message).code == code,
        error_model(code, message).message == message,
        cancelled_model() == (ErrorModel { code: ErrorCode::Cancelled, message: "request cancelled"@ }),
        denied_model() == (ErrorModel {
            code: ErrorCode::CapabilityDenied,
            message: "capability not granted"@,
        }),
{
}

/// A structured failure returned by the runtime or a capability.
#[derive(Clone, Debug, PartialEq, Eq)]
pub struct RuntimeError {
    code: ErrorCode,
    message: String,
}

impl View for RuntimeError {
    type V = ErrorModel;

    closed spec fn view(&self) -> ErrorModel {
        ErrorModel { code: self.code, message: self.message@ }
    }
}

impl RuntimeError {
    /// Creates a cancellation error.
    pub fn cancelled() -> (error: Self)
        ensures
            error@ == cancelled_model(),
    {
        RuntimeError { code: ErrorCode::Cancelled, message: "request cancelled".to_owned() }
    }

    /// Creates an error for a capability that is not granted.
    pub fn capability_denied() -> (error: Self)
        ensures
            error@ == denied_model(),
    {
        RuntimeError { code: ErrorCode::CapabilityDenied, message: "capability not granted".to_owned() }
    }

    /// Creates an error for a failed native capability operation.
    pub fn capability_failed(message: String) -> (error: Self)
        ensures
            error@ == error_model(ErrorCode::CapabilityFailed, message@),
    {
        RuntimeError { code: ErrorCode::CapabilityFailed, message }
    }

    /// Creates an error for an operation stopped by a resource limit.
    pub fn resource_limit_exceeded(message: String) -> (error: Self)
        ensures
            error@ == error_model(ErrorCode::ResourceLimitExceeded, message@),
    {
        RuntimeError { code: ErrorCode::ResourceLimitExceeded, message }
    }

    /// Creates an error for an owned task that stopped without a capability result.
    pub fn task_failed(message: String) -> (error: Self)
        ensures
            error@ == error_model(ErrorCode::TaskFailed, message@),
    {
        RuntimeError { code: ErrorCode::TaskFailed, message }
    }

    /// Returns the stable category of this failure.
    pub fn code(&self) -> (code: ErrorCode)
        ensures
            code == self@.code,
    {
        self.code
    }

    /// Returns the human-readable failure detail.
    pub fn message(&self) -> (message: &str)
        ensures
            message@ == self@.message,
    {
        self.message.as_str()
    }

    /// Renders the error for display: its human-readable detail alone.
    pub fn to_string(&self) -> (text: String)
        ensures
            text@ == self@.message,
    {
        self.message.as_str().to_owned()
    }
}

} // verus!
