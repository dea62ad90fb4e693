//! HTTP status codes.
//!
//! A status is an `http::StatusCode`; contracts speak of its number.

use vstd::prelude::*;

verus! {

/// `http::StatusCode`, known to the contracts by [`status_number`] alone.
#[verifier::external_type_specification]
#[verifier::external_body]
pub struct ExStatusCode(http::StatusCode);

/// The number of a status code, as `StatusCode::as_u16` gives it.
pub uninterp spec fn status_number(status: http::StatusCode) -> int;

/// The number of an optional status code.
pub open spec fn status_view(status: Option<http::StatusCode>) -> Option<int> {
    match status {
        Some(code) => Some(status_number(code)),
        None => None,
    }
}

/// `StatusCode::as_u16`.
#[verifier::external_body]
pub(crate) fn status_as_u16(status: &http::StatusCode) -> (number: u16)
    ensures
        number == status_number(*status),
{
    status.as_u16()
}

/// The constant `StatusCode::OK`.
#[verifier::external_body]
pub(crate) fn ok() -> (status: http::StatusCode)
    ensures
        status_number(status) == 200,
{
    http::StatusCode::OK
}

/// The constant `StatusCode::BAD_REQUEST`.
#[verifier::external_body]
pub(crate) fn bad_request() -> (status: http::StatusCode)
    ensures
        status_number(status) == 400,
{
    http::StatusCode::BAD_REQUEST
}

/// The constant `StatusCode::NOT_FOUND`.
#[verifier::external_body]
pub(crate) fn not_found() -> (status: http::StatusCode)
    ensures
        status_number(status) == 404,
{
    http::StatusCode::NOT_FOUND
}

/// The constant `StatusCode::INTERNAL_SERVER_ERROR`.
#[verifier::external_body]
pub(crate) fn internal_server_error() -> (status: http::StatusCode)
    ensures
        status_number(status) == 500,
{
    http::StatusCode::INTERNAL_SERVER_ERROR
}

/// The constant `StatusCode::GATEWAY_TIMEOUT`.
#[verifier::external_body]
pub(crate) fn gateway_timeout() -> (status: http::StatusCode)
    ensures
        status_number(status) == 504,
{
    http::StatusCode::GATEWAY_TIMEOUT
}

} // verus!
