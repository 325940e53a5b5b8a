//! What a request can fail with.
use vstd::prelude::*;

verus! {

#[verifier::external_type_specification]
#[verifier::external_body]
pub struct ExInvalidHeaderValue(http::header::InvalidHeaderValue);

/// A rejection reported by the service, with its correlation identifier.
#[derive(Debug, Clone, PartialEq, Eq)]
pub struct ErrorResponse {
    pub status_code: u16,
    pub request_id: String,
    pub error_type: String,
    pub error_message: String,
    pub error_url: String,
}

/// Every failure a request can end in. None is retried; each is handed to
/// the caller as it came.
#[derive(Debug)]
#[non_exhaustive]
pub enum Error {
    /// The service answered with a non-success status and a readable error
    /// body.
    Response(ErrorResponse),
    /// The authorization header built from the credentials is not a valid
    /// header value.
    InvalidHeaderValue(http::header::InvalidHeaderValue),
    /// A base URL did not parse.
    InvalidUrl(url::ParseError),
    /// The transport failed, or a body did not read as the expected shape;
    /// the transport's own description of the failure.
    Other(String),
}

} // verus!
