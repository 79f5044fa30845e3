//! Failures outside the display driver: of the API, of the network, of the
//! device's own parts. Each carries an error code first, then what is known
//! of the cause.

use vstd::prelude::*;

verus! {

/// The API call itself did not work out.
#[derive(Debug, PartialEq, Eq)]
pub enum ApiClientError {
    /// No usable response: code, cause.
    Response(String, String),
    /// The response was not the JSON that was expected: code, cause.
    JsonParsing(String, String),
}

/// The API answered with an error.
#[derive(Debug, PartialEq, Eq)]
pub enum ApiResponseError {
    /// The server could not be reached: code, cause.
    SiteNotFound(String, String),
    /// Code, error, message.
    InternalServerError(String, String, String),
    /// Status 400: code, error, message.
    BadRequest(String, String, String),
    /// Status 404: code, error, message.
    NotFound(String, String, String),
}

#[derive(Debug, PartialEq, Eq)]
pub enum CommonError {
    /// A lock was poisoned: code, cause.
    MutexGuard(String, String),
}

#[derive(Debug, PartialEq, Eq)]
pub enum DeviceError<'a> {
    /// A pin could not be taken: code, cause.
    PeripheralPin(&'a str, &'a str),
}

#[derive(Debug, PartialEq, Eq)]
pub enum SetupError<'a> {
    /// The peripherals could not be taken: code, cause.
    Peripherals(&'a str, &'a str),
}

#[derive(Debug, PartialEq, Eq)]
pub enum WifiError {
    /// Code, cause.
    Scanning(String, String),
    /// The configured access point was not seen: code, its name.
    ApNotFound(String, String),
    /// Code, cause.
    Configuration(String, String),
    /// No connection yet: code.
    NotConnected(String),
    /// Connected, but without an address yet: code.
    UnresolvedIp(String),
}

/// Why an API call gave no data.
#[derive(Debug, PartialEq, Eq)]
pub enum ApiError {
    /// The API answered with an error.
    Response(ApiResponseError),
    /// The call itself did not work out.
    Client(ApiClientError),
    /// Anything else.
    Other,
}

/// Status of a request that the server could not make sense of.
pub const STATUS_BAD_REQUEST: u16 = 400;

/// Status of a request for something that is not there.
pub const STATUS_NOT_FOUND: u16 = 404;

/// Code of an error response with status 400.
pub const BAD_REQUEST_CODE: &'static str = "E0024b";

/// Code of an error response with status 404.
pub const NOT_FOUND_CODE: &'static str = "E0024c";

/// Code of an error response with any other status.
pub const INTERNAL_SERVER_ERROR_CODE: &'static str = "E0024d";

/// Whether `e` is the error for a response with `status_code` that carried
/// `error` and `message`.
pub open spec fn is_response_error(
    e: ApiResponseError,
    status_code: u16,
    error: Seq<char>,
    message: Seq<char>,
) -> bool {
    match e {
        ApiResponseError::BadRequest(code, err, msg) => status_code == STATUS_BAD_REQUEST && code@
            == BAD_REQUEST_CODE@ && err@ == error && msg@ == message,
        ApiResponseError::NotFound(code, err, msg) => status_code == STATUS_NOT_FOUND && code@
            == NOT_FOUND_CODE@ && err@ == error && msg@ == message,
        ApiResponseError::InternalServerError(code, err, msg) => status_code != STATUS_BAD_REQUEST
            && status_code != STATUS_NOT_FOUND && code@ == INTERNAL_SERVER_ERROR_CODE@ && err@
            == error && msg@ == message,
        ApiResponseError::SiteNotFound(_, _) => false,
    }
}

impl ApiResponseError {
    /// The error for a response that was not a success: bad request and not
    /// found by their status, everything else as an internal server error.
    pub fn from_status(status_code: u16, error: String, message: String) -> (e: Self)
        ensures
            is_response_error(e, status_code, error@, message@),
    {
        if status_code == STATUS_BAD_REQUEST {
            ApiResponseError::BadRequest(BAD_REQUEST_CODE.to_owned(), error, message)
        } else if status_code == STATUS_NOT_FOUND {
            ApiResponseError::NotFound(NOT_FOUND_CODE.to_owned(), error, message)
        } else {
            ApiResponseError::InternalServerError(
                INTERNAL_SERVER_ERROR_CODE.to_owned(),
                error,
                message,
            )
        }
    }
}

} // verus!
