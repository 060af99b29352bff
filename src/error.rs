use vstd::prelude::*;
use vstd::string::*;
use crate::json::{decimal, number_text};

verus! {

/// Every way in which an operation of the client can fail.
#[derive(Debug, Clone, PartialEq, Eq)]
pub enum GistError {
    /// The request could not be sent or its response could not be received.
    RequestFailed(String),
    /// The server answered with a status that is neither a success, 401 nor 404.
    ApiError { status: u16, message: String },
    /// The server answered 401.
    Unauthorized,
    /// The server answered 404.
    NotFound,
    /// A body could not be encoded, or a response body did not decode.
    JsonError(String),
    /// The caller handed over an input that is rejected before any request.
    InvalidInput(String),
    /// A file operation of the caller failed.
    FileError(String),
}

/// What `GistError::from_response` yields for a status and a response text.
pub open spec fn is_response_error(e: GistError, status: u16, message: Seq<char>) -> bool {
    if status == 401 {
        e is Unauthorized
    } else if status == 404 {
        e is NotFound
    } else {
        e matches GistError::ApiError { status: s, message: m } && s == status && m@ == message
    }
}

impl GistError {
    /// The error for a response with an unsuccessful status: 401 and 404 have
    /// their own kinds whatever the body, any other status keeps the text.
    pub fn from_response(status: u16, message: String) -> (r: GistError)
        ensures
            is_response_error(r, status, message@),
    {
        if status == 401 {
            GistError::Unauthorized
        } else if status == 404 {
            GistError::NotFound
        } else {
            GistError::ApiError { status, message }
        }
    }

    /// A sentence that describes this error.
    pub open spec fn description_spec(self) -> Seq<char> {
        match self {
            GistError::RequestFailed(m) => "HTTP request failed: "@ + m@,
            GistError::ApiError { status, message } => "API error (status "@ + decimal(
                status as nat,
            ) + "): "@ + message@,
            GistError::Unauthorized => "Authentication required"@,
            GistError::NotFound => "Resource not found"@,
            GistError::JsonError(m) => "JSON serialization/deserialization failed: "@ + m@,
            GistError::InvalidInput(m) => "Invalid input: "@ + m@,
            GistError::FileError(m) => "File operation error: "@ + m@,
        }
    }

    /// A sentence that describes this error.
    pub fn description(&self) -> (r: String)
        ensures
            r@ == self.description_spec(),
    {
        match self {
            GistError::RequestFailed(m) => String::from_str("HTTP request failed: ").concat(m.as_str()),
            GistError::ApiError { status, message } => String::from_str("API error (status ").concat(
                number_text(*status as u64).as_str(),
            ).concat("): ").concat(message.as_str()),
            GistError::Unauthorized => String::from_str("Authentication required"),
            GistError::NotFound => String::from_str("Resource not found"),
            GistError::JsonError(m) => String::from_str(
                "JSON serialization/deserialization failed: ",
            ).concat(m.as_str()),
            GistError::InvalidInput(m) => String::from_str("Invalid input: ").concat(m.as_str()),
            GistError::FileError(m) => String::from_str("File operation error: ").concat(m.as_str()),
        }
    }
}

} // verus!
