//! The client's side of the Sirius Proxima API: where a request goes, and
//! what is made of what comes back.
//!
//! Sending a request and reading JSON are done elsewhere. What came back of a
//! request is handed over as an [`Exchange`], and [`SiriusProximaClient::handle_response`]
//! turns it into the data that was asked for or into the error that tells
//! what went wrong.

use vstd::prelude::*;
use crate::constants::DefaultValues;
use crate::errors::is_response_error;
use crate::errors::ApiClientError;
use crate::errors::ApiError;
use crate::errors::ApiResponseError;
use crate::models::SiriusProximaErrorResponse;
use crate::models::SiriusProximaSuccessResponse;

verus! {

/// The base client of an HTTP API.
#[derive(Clone, Debug, PartialEq, Eq)]
pub struct ApiClient {
    pub base_url: String,
    pub connect_timeout_ms: u64,
    pub enable_compression: bool,
}

impl ApiClient {
    /// The address of `endpoint`: the base address with the endpoint after
    /// it.
    pub fn build_url(&self, endpoint: &str) -> (url: String)
        ensures
            url@ == self.base_url@ + endpoint@,
    {
        let mut url = self.base_url.clone();
        url.append(endpoint);
        url
    }
}

/// Client of the Sirius Proxima API.
#[derive(Clone, Debug, PartialEq, Eq)]
pub struct SiriusProximaClient {
    pub base_api_client: ApiClient,
}

impl SiriusProximaClient {
    /// A client of the API at `base_url`, with the default timeout and with
    /// compression.
    pub fn new(base_url: String) -> (client: Self)
        ensures
            client.base_api_client.base_url == base_url,
            client.base_api_client.connect_timeout_ms == DefaultValues::API_TIMEOUT_MS,
            client.base_api_client.enable_compression,
    {
        let ac = ApiClient {
            base_url,
            connect_timeout_ms: DefaultValues::API_TIMEOUT_MS,
            enable_compression: true,
        };
        SiriusProximaClient { base_api_client: ac }
    }
}

/// What the API answers to a ping.
#[derive(Clone, Copy, Debug, PartialEq, Eq, Structural)]
pub struct PingResponse {
    pub short_period_buzzer_beep_duration_ms: usize,
    pub is_continuous_period_buzzer_beep_active: bool,
}

/// What came back of a request. Texts are how the underlying error reads.
#[derive(Debug, PartialEq, Eq)]
pub enum Exchange<De> {
    /// The request did not get through, for an I/O error.
    Unreachable(String),
    /// The request failed in another way.
    Failed(String),
    /// A response came, and its body could not be read.
    Unreadable(String),
    /// A response with a success status: its body, or why the body is not the
    /// JSON of a success.
    Success(Result<SiriusProximaSuccessResponse<De>, String>),
    /// A response with another status: the status, and its body or why the
    /// body is not the JSON of an error.
    Refused(u16, Result<SiriusProximaErrorResponse, String>),
}

/// Code of the error for a server that could not be reached.
pub const SITE_NOT_FOUND_CODE: &'static str = "E0025";

/// Code of the error for a request that failed otherwise.
pub const REQUEST_FAILED_CODE: &'static str = "E0020b";

/// Code of the error for a body that could not be read.
pub const UNREADABLE_BODY_CODE: &'static str = "E0021b";

/// Code of the error for a success whose body is not the expected JSON.
pub const SUCCESS_JSON_CODE: &'static str = "E0022b";

/// Code of the error for an error response whose body is not the expected
/// JSON.
pub const ERROR_JSON_CODE: &'static str = "E0023b";

/// The text of an optional field: the empty text where the field is absent.
pub open spec fn text_or_empty(field: Option<String>) -> Seq<char> {
    match field {
        Some(text) => text@,
        None => Seq::empty(),
    }
}

/// Whether `r` is what is made of `exchange`: the data of a success, and for
/// everything else the error of its kind, with its code and its cause.
pub open spec fn is_handled<De>(r: Result<De, ApiError>, exchange: Exchange<De>) -> bool {
    match exchange {
        Exchange::Unreachable(cause) => r matches Err(
            ApiError::Response(ApiResponseError::SiteNotFound(code, text)),
        ) && code@ == SITE_NOT_FOUND_CODE@ && text@ == cause@,
        Exchange::Failed(cause) => r matches Err(
            ApiError::Client(ApiClientError::Response(code, text)),
        ) && code@ == REQUEST_FAILED_CODE@ && text@ == cause@,
        Exchange::Unreadable(cause) => r matches Err(
            ApiError::Client(ApiClientError::Response(code, text)),
        ) && code@ == UNREADABLE_BODY_CODE@ && text@ == cause@,
        Exchange::Success(Ok(body)) => r matches Ok(data) && data == body.data,
        Exchange::Success(Err(cause)) => r matches Err(
            ApiError::Client(ApiClientError::JsonParsing(code, text)),
        ) && code@ == SUCCESS_JSON_CODE@ && text@ == cause@,
        Exchange::Refused(status_code, Ok(body)) => r matches Err(ApiError::Response(e))
            && is_response_error(
            e,
            status_code,
            text_or_empty(body.error),
            text_or_empty(body.message),
        ),
        Exchange::Refused(_, Err(cause)) => r matches Err(
            ApiError::Client(ApiClientError::JsonParsing(code, text)),
        ) && code@ == ERROR_JSON_CODE@ && text@ == cause@,
    }
}

/// The text of an optional field, empty where the field is absent.
fn unwrap_or_default(field: Option<String>) -> (text: String)
    ensures
        text@ == text_or_empty(field),
{
    match field {
        Some(text) => text,
        None => String::new(),
    }
}

impl SiriusProximaClient {
    /// The data that a request asked for, or the error that tells what went
    /// wrong with it.
    pub fn handle_response<De>(&self, exchange: Exchange<De>) -> (r: Result<De, ApiError>)
        ensures
            is_handled(r, exchange),
    {
        match exchange {
            Exchange::Unreachable(cause) => Err(
                ApiError::Response(
                    ApiResponseError::SiteNotFound(SITE_NOT_FOUND_CODE.to_owned(), cause),
                ),
            ),
            Exchange::Failed(cause) => Err(
                ApiError::Client(ApiClientError::Response(REQUEST_FAILED_CODE.to_owned(), cause)),
            ),
            Exchange::Unreadable(cause) => Err(
                ApiError::Client(ApiClientError::Response(UNREADABLE_BODY_CODE.to_owned(), cause)),
            ),
            Exchange::Success(Ok(body)) => Ok(body.data),
            Exchange::Success(Err(cause)) => Err(
                ApiError::Client(ApiClientError::JsonParsing(SUCCESS_JSON_CODE.to_owned(), cause)),
            ),
            Exchange::Refused(status_code, Ok(body)) => {
                let resp_json_err = unwrap_or_default(body.error);
                let resp_json_message = unwrap_or_default(body.message);
                Err(
                    ApiError::Response(
                        ApiResponseError::from_status(status_code, resp_json_err, resp_json_message),
                    ),
                )
            },
            Exchange::Refused(_, Err(cause)) => Err(
                ApiError::Client(ApiClientError::JsonParsing(ERROR_JSON_CODE.to_owned(), cause)),
            ),
        }
    }
}

} // verus!
