//! Error types of the library and the text each one reads as.

use vstd::prelude::*;
use vstd::string::StringExecFns;

verus! {

/// `a` followed by `b`.
pub fn concat(a: &str, b: &str) -> (r: String)
    ensures
        r@ == a@ + b@,
{
    let mut s = String::from_str(a);
    s.append(b);
    s
}

/// Input of a tool that does not match its schema.
pub enum ValidationError {
    InvalidInput { message: String },
    MissingField { field: String },
    InvalidType { field: String, expected: String },
    OutOfRange { field: String },
}

impl ValidationError {
    pub open spec fn text_spec(&self) -> Seq<char> {
        match self {
            ValidationError::InvalidInput { message } => "Invalid input: "@ + message@,
            ValidationError::MissingField { field } => "Missing required field: "@ + field@,
            ValidationError::InvalidType { field, expected } => "Invalid field type: "@ + field@
                + " expected "@ + expected@,
            ValidationError::OutOfRange { field } => "Value out of range: "@ + field@,
        }
    }

    /// The human-readable text of this error.
    pub fn to_text(&self) -> (r: String)
        ensures
            r@ == self.text_spec(),
    {
        match self {
            ValidationError::InvalidInput { message } => concat("Invalid input: ", message.as_str()),
            ValidationError::MissingField { field } => concat(
                "Missing required field: ",
                field.as_str(),
            ),
            ValidationError::InvalidType { field, expected } => {
                let mut s = concat("Invalid field type: ", field.as_str());
                s.append(" expected ");
                s.append(expected.as_str());
                s
            },
            ValidationError::OutOfRange { field } => concat("Value out of range: ", field.as_str()),
        }
    }
}

/// Failure of a tool call.
pub enum ToolError {
    ValidationError(ValidationError),
    ExecutionError { message: String },
    TimeoutError,
    PermissionError { message: String },
    InternalError { message: String },
}

impl ToolError {
    pub open spec fn text_spec(&self) -> Seq<char> {
        match self {
            ToolError::ValidationError(e) => "Validation error: "@ + e.text_spec(),
            ToolError::ExecutionError { message } => "Execution error: "@ + message@,
            ToolError::TimeoutError => "Timeout error: tool execution timed out"@,
            ToolError::PermissionError { message } => "Permission error: "@ + message@,
            ToolError::InternalError { message } => "Internal error: "@ + message@,
        }
    }

    /// The human-readable text of this error.
    pub fn to_text(&self) -> (r: String)
        ensures
            r@ == self.text_spec(),
    {
        match self {
            ToolError::ValidationError(e) => {
                let t = e.to_text();
                concat("Validation error: ", t.as_str())
            },
            ToolError::ExecutionError { message } => concat("Execution error: ", message.as_str()),
            ToolError::TimeoutError => String::from_str("Timeout error: tool execution timed out"),
            ToolError::PermissionError { message } => concat(
                "Permission error: ",
                message.as_str(),
            ),
            ToolError::InternalError { message } => concat("Internal error: ", message.as_str()),
        }
    }
}

/// Failure of a command.
pub enum CommandError {
    CommandNotFound { name: String },
    ExecutionFailed { message: String },
    InvalidArguments { message: String },
    PermissionDenied { message: String },
    InternalError { message: String },
}

/// Failure of the publish/subscribe facility.
pub enum EventError {
    ListenerNotFound { id: String },
    HandlingFailed { message: String },
    PublishingFailed { message: String },
    InternalError { message: String },
}

/// Failure of logging set-up.
pub enum LoggingError {
    InitializationError { message: String },
    ConfigurationError { message: String },
}

} // verus!
