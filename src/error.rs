//! Error kinds seen at the relay's boundary, with their HTTP status and text.

use vstd::prelude::*;
use crate::text::{decimal, decimal_string};

verus! {

/// Why a submitted request was refused before dispatch.
#[derive(Clone, Debug)]
pub enum ValidationError {
    MissingField { field: String },
    InvalidSchemaVersion { version: String },
    EmptySnippet,
}

/// A validation failure as plain values.
pub enum ValidationFailure {
    MissingField(Seq<char>),
    InvalidSchemaVersion(Seq<char>),
    EmptySnippet,
}

impl View for ValidationError {
    type V = ValidationFailure;

    open spec fn view(&self) -> ValidationFailure {
        match self {
            ValidationError::MissingField { field } => ValidationFailure::MissingField(field@),
            ValidationError::InvalidSchemaVersion { version } => ValidationFailure::InvalidSchemaVersion(
                version@,
            ),
            ValidationError::EmptySnippet => ValidationFailure::EmptySnippet,
        }
    }
}

pub open spec fn validation_text(f: ValidationFailure) -> Seq<char> {
    match f {
        ValidationFailure::MissingField(field) => "Missing required field: "@ + field,
        ValidationFailure::InvalidSchemaVersion(v) => "Invalid schema version: "@ + v,
        ValidationFailure::EmptySnippet => "Empty snippet content"@,
    }
}

impl ValidationError {
    /// The human-readable description of the failure.
    pub fn describe(&self) -> (r: String)
        ensures
            r@ == validation_text(self@),
    {
        match self {
            ValidationError::MissingField { field } => {
                let mut r = String::from_str("Missing required field: ");
                r.append(field.as_str());
                r
            },
            ValidationError::InvalidSchemaVersion { version } => {
                let mut r = String::from_str("Invalid schema version: ");
                r.append(version.as_str());
                r
            },
            ValidationError::EmptySnippet => String::from_str("Empty snippet content"),
        }
    }
}

/// Failures of the relay that reach a submitter or end a sink session.
#[derive(Clone, Debug)]
pub enum AppError {
    NoSink,
    InvalidRequest { reason: String },
    PayloadTooLarge { size: usize, max: usize },
    SinkRegistrationFailed { reason: String },
    DispatchTimeout { timeout_ms: u64 },
    Serialization { reason: String },
}

/// The HTTP status that reports `e`.
pub open spec fn status_of(e: AppError) -> u16 {
    match e {
        AppError::NoSink => 503,
        AppError::InvalidRequest { .. } => 400,
        AppError::PayloadTooLarge { .. } => 413,
        AppError::SinkRegistrationFailed { .. } => 500,
        AppError::DispatchTimeout { .. } => 504,
        AppError::Serialization { .. } => 400,
    }
}

/// The full description of `e`.
pub open spec fn error_text(e: AppError) -> Seq<char> {
    match e {
        AppError::NoSink => "No sink connected"@,
        AppError::InvalidRequest { reason } => "Invalid request: "@ + reason@,
        AppError::PayloadTooLarge { size, max } => "Job payload too large: "@ + decimal(
            size as nat,
        ) + " bytes (max: "@ + decimal(max as nat) + ")"@,
        AppError::SinkRegistrationFailed { reason } => "Sink registration failed: "@ + reason@,
        AppError::DispatchTimeout { timeout_ms } => "Job dispatch timeout after "@ + decimal(
            timeout_ms as nat,
        ) + "ms"@,
        AppError::Serialization { reason } => "Serialization error: "@ + reason@,
    }
}

/// The text that an HTTP error body carries for `e`: malformed JSON and internal
/// failures are not described in detail.
pub open spec fn reply_text(e: AppError) -> Seq<char> {
    match e {
        AppError::Serialization { .. } => "Invalid JSON"@,
        AppError::SinkRegistrationFailed { .. } => "Internal server error"@,
        _ => error_text(e),
    }
}

impl AppError {
    pub fn status_code(&self) -> (r: u16)
        ensures
            r == status_of(*self),
    {
        match self {
            AppError::NoSink => 503,
            AppError::InvalidRequest { .. } => 400,
            AppError::PayloadTooLarge { .. } => 413,
            AppError::SinkRegistrationFailed { .. } => 500,
            AppError::DispatchTimeout { .. } => 504,
            AppError::Serialization { .. } => 400,
        }
    }

    /// The error's description.
    pub fn message(&self) -> (r: String)
        ensures
            r@ == error_text(*self),
    {
        match self {
            AppError::NoSink => String::from_str("No sink connected"),
            AppError::InvalidRequest { reason } => {
                let mut r = String::from_str("Invalid request: ");
                r.append(reason.as_str());
                r
            },
            AppError::PayloadTooLarge { size, max } => {
                let mut r = String::from_str("Job payload too large: ");
                r.append(decimal_string(*size as u64).as_str());
                r.append(" bytes (max: ");
                r.append(decimal_string(*max as u64).as_str());
                r.append(")");
                r
            },
            AppError::SinkRegistrationFailed { reason } => {
                let mut r = String::from_str("Sink registration failed: ");
                r.append(reason.as_str());
                r
            },
            AppError::DispatchTimeout { timeout_ms } => {
                let mut r = String::from_str("Job dispatch timeout after ");
                r.append(decimal_string(*timeout_ms).as_str());
                r.append("ms");
                r
            },
            AppError::Serialization { reason } => {
                let mut r = String::from_str("Serialization error: ");
                r.append(reason.as_str());
                r
            },
        }
    }

    /// The text of the `error` field in the HTTP reply for this error.
    pub fn reply_message(&self) -> (r: String)
        ensures
            r@ == reply_text(*self),
    {
        match self {
            AppError::Serialization { .. } => String::from_str("Invalid JSON"),
            AppError::SinkRegistrationFailed { .. } => String::from_str("Internal server error"),
            _ => self.message(),
        }
    }
}

} // verus!
