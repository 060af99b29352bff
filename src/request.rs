use vstd::prelude::*;
use vstd::string::*;
use crate::constants::{UNEXPECTED_STAR_STATUS, UNKNOWN_ERROR, UNREADABLE_BODY};
use crate::error::{is_response_error, GistError};

verus! {

/// The HTTP methods that the Gist API uses.
#[derive(Debug, Clone, Copy, PartialEq, Eq, Structural)]
pub enum HttpMethod {
    Get,
    Post,
    Patch,
    Put,
    Delete,
}

/// What a request carries after its headers.
#[derive(Debug, Clone)]
pub enum RequestBody {
    /// No body at all.
    Empty,
    /// A JSON document, sent with a JSON content type.
    Json(String),
    /// A multipart form of named text parts.
    Multipart(Vec<(String, String)>),
}

/// How the body of a successful response is to be treated.
#[derive(Debug, Clone, Copy, PartialEq, Eq, Structural)]
pub enum ResponseKind {
    /// The body is a JSON document to decode.
    JsonBody,
    /// The body is discarded unread.
    NoBody,
    /// The status alone says whether a gist is starred.
    StarStatus,
}

/// One HTTP request, ready to be sent.
#[derive(Debug, Clone)]
pub struct HttpRequest {
    pub method: HttpMethod,
    pub url: String,
    /// Header names and values, in the order in which they are set.
    pub headers: Vec<(String, String)>,
    pub body: RequestBody,
    pub expect: ResponseKind,
}

/// What a response that does not fail comes to.
#[derive(Debug, Clone, PartialEq, Eq)]
pub enum Outcome {
    /// The text of a JSON body, still to be decoded.
    Body(String),
    /// A success whose body is of no interest.
    Done,
    /// Whether the gist is starred.
    Starred(bool),
}

pub open spec fn is_success_status(status: u16) -> bool {
    200 <= status && status <= 299
}

/// The text that an API error carries: the response text, or a fixed
/// placeholder where it could not be read.
pub open spec fn error_text(text: Option<String>) -> Seq<char> {
    match text {
        Some(t) => t@,
        None => UNKNOWN_ERROR@,
    }
}

/// Whether a status is in the success range 200 to 299.
pub fn is_success(status: u16) -> (r: bool)
    ensures
        r == is_success_status(status),
{
    200 <= status && status <= 299
}

fn error_message(text: Option<String>) -> (r: String)
    ensures
        r@ == error_text(text),
{
    match text {
        Some(t) => t,
        None => String::from_str(UNKNOWN_ERROR),
    }
}

/// Whether the text of a response is used: the body of a JSON answer, and
/// the text of an error, but not a body to discard nor the star check's 404.
pub open spec fn text_needed(kind: ResponseKind, status: u16) -> bool {
    if is_success_status(status) {
        kind is JsonBody
    } else {
        !(kind is StarStatus && status == 404)
    }
}

/// Whether the text of a response is to be read before it is interpreted;
/// where it is not, `interpret_response` gives the same result without it.
pub fn needs_text(kind: ResponseKind, status: u16) -> (r: bool)
    ensures
        r == text_needed(kind, status),
{
    if is_success(status) {
        match kind {
            ResponseKind::JsonBody => true,
            _ => false,
        }
    } else {
        match kind {
            ResponseKind::StarStatus => status != 404,
            _ => true,
        }
    }
}

/// What a response with this status and text (`None` where the text could
/// not be read) comes to, for a request that expected `kind`.
pub open spec fn interprets(kind: ResponseKind, status: u16, text: Option<String>, r: Result<Outcome, GistError>) -> bool {
    &&& kind is StarStatus ==> {
        &&& status == 204 ==> r == Ok::<Outcome, GistError>(Outcome::Starred(true))
        &&& status == 404 ==> r == Ok::<Outcome, GistError>(Outcome::Starred(false))
        &&& status != 204 && status != 404 && is_success_status(status) ==> (r matches Err(
            GistError::ApiError { status: s, message: m },
        ) && s == status && m@ == UNEXPECTED_STAR_STATUS@)
        &&& status != 404 && !is_success_status(status) ==> (r matches Err(e)
            && is_response_error(e, status, error_text(text)))
    }
    &&& !(kind is StarStatus) ==> {
        &&& !is_success_status(status) ==> (r matches Err(e)
            && is_response_error(e, status, error_text(text)))
        &&& is_success_status(status) && kind is NoBody ==> r == Ok::<Outcome, GistError>(
            Outcome::Done,
        )
        &&& is_success_status(status) && kind is JsonBody ==> match text {
            Some(t) => r matches Ok(Outcome::Body(b)) && b@ == t@,
            None => r matches Err(GistError::RequestFailed(m)) && m@ == UNREADABLE_BODY@,
        }
    }
}

/// Interprets a response from its status and its text (`None` where the
/// text could not be read), according to what the request expected.
pub fn interpret_response(kind: ResponseKind, status: u16, text: Option<String>) -> (r: Result<
    Outcome,
    GistError,
>)
    ensures
        interprets(kind, status, text, r),
{
    match kind {
        ResponseKind::StarStatus => {
            if status == 204 {
                Ok(Outcome::Starred(true))
            } else if status == 404 {
                Ok(Outcome::Starred(false))
            } else if is_success(status) {
                Err(
                    GistError::ApiError {
                        status,
                        message: String::from_str(UNEXPECTED_STAR_STATUS),
                    },
                )
            } else {
                Err(GistError::from_response(status, error_message(text)))
            }
        },
        _ => {
            if !is_success(status) {
                Err(GistError::from_response(status, error_message(text)))
            } else {
                match kind {
                    ResponseKind::JsonBody => match text {
                        Some(t) => Ok(Outcome::Body(t)),
                        None => Err(
                            GistError::RequestFailed(String::from_str(UNREADABLE_BODY)),
                        ),
                    },
                    _ => Ok(Outcome::Done),
                }
            }
        },
    }
}

} // verus!
