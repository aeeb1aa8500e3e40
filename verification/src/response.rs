//! The responses of the JSON API, before they are encoded: a status and a body.

use vstd::prelude::*;
use crate::database::DatabaseRow;

verus! {

/// The HTTP statuses the server answers with.
#[derive(Clone, Copy, Debug, PartialEq, Eq, Structural)]
pub enum HttpStatus {
    Success,
    BadRequest,
    Unauthorized,
    Forbidden,
    NotFound,
    Conflict,
    InternalServerError,
}

/// The numeric code of a status.
pub open spec fn status_code(status: HttpStatus) -> u16 {
    match status {
        HttpStatus::Success => 200,
        HttpStatus::BadRequest => 400,
        HttpStatus::Unauthorized => 401,
        HttpStatus::Forbidden => 403,
        HttpStatus::NotFound => 404,
        HttpStatus::Conflict => 409,
        HttpStatus::InternalServerError => 500,
    }
}

impl HttpStatus {
    /// The numeric code of this status.
    pub fn code(&self) -> (code: u16)
        ensures
            code == status_code(*self),
    {
        match self {
            HttpStatus::Success => 200,
            HttpStatus::BadRequest => 400,
            HttpStatus::Unauthorized => 401,
            HttpStatus::Forbidden => 403,
            HttpStatus::NotFound => 404,
            HttpStatus::Conflict => 409,
            HttpStatus::InternalServerError => 500,
        }
    }
}

/// The JSON body of an API response.
#[derive(Debug, PartialEq)]
pub enum ApiBody {
    /// `{"error": "..."}`
    Error(String),
    /// `{"seed": ...}`
    Seed(i64),
    /// `{"id": ...}`
    Submitted(i64),
    /// `{"scores": [...]}`
    Scores(Vec<DatabaseRow>),
}

/// An API response: status and body.
#[derive(Debug, PartialEq)]
pub struct ApiResponse {
    pub status: HttpStatus,
    pub body: ApiBody,
}

/// The API's error convention: every response whose status is not 200
/// carries an error body.
pub open spec fn uses_error_format(response: ApiResponse) -> bool {
    response.status != HttpStatus::Success ==> response.body is Error
}

/// Whether `response` is an error response with the given status and message.
pub open spec fn is_error_response(response: ApiResponse, status: HttpStatus, message: Seq<char>) -> bool {
    &&& response.status == status
    &&& response.body matches ApiBody::Error(m) && m@ == message
}

/// An error response with the given status and message.
pub fn general_error_response(status: HttpStatus, error: String) -> (response: ApiResponse)
    ensures
        is_error_response(response, status, error@),
        uses_error_format(response),
{
    ApiResponse { status, body: ApiBody::Error(error) }
}

/// The message answered for API paths that do not exist.
pub open spec fn not_found_message() -> Seq<char> {
    "Not found."@
}

/// The response for API paths that do not exist: 404 with an error body.
pub fn not_found_response() -> (response: ApiResponse)
    ensures
        is_error_response(response, HttpStatus::NotFound, not_found_message()),
        uses_error_format(response),
{
    general_error_response(HttpStatus::NotFound, "Not found.".to_string())
}

/// Fallback when a response cannot be built: 500 with the given message.
pub fn internal_error_response(error: String) -> (response: ApiResponse)
    ensures
        is_error_response(response, HttpStatus::InternalServerError, error@),
        uses_error_format(response),
{
    general_error_response(HttpStatus::InternalServerError, error)
}

} // verus!
