//! The decision that turns a reply of the transport into a typed result.
use vstd::prelude::*;
use crate::error::{Error, ErrorResponse};

verus! {

pub open spec fn success_status(status: u16) -> bool {
    200 <= status <= 299
}

/// Whether a reply with this status carries the success shape (2xx) or the
/// service's error shape.
pub fn is_success(status: u16) -> (r: bool)
    ensures
        r == success_status(status),
{
    200 <= status && status <= 299
}

/// The result of a call, from the reply's status and what reading its body
/// gave: `success` where the body was read as the success shape and parsed,
/// `failure` where it was read as the error shape and parsed, and
/// `parse_error` the reader's description where the shape that the status
/// calls for did not parse. A 2xx reply gives its value, or `Other`; any
/// other gives `Response` with the service's error, or `Other`.
pub fn outcome<Res>(
    status: u16,
    success: Option<Res>,
    failure: Option<ErrorResponse>,
    parse_error: String,
) -> (r: Result<Res, Error>)
    ensures
        success_status(status) ==> match success {
            Some(v) => r == Ok::<Res, Error>(v),
            None => r == Err::<Res, Error>(Error::Other(parse_error)),
        },
        !success_status(status) ==> match failure {
            Some(e) => r == Err::<Res, Error>(Error::Response(e)),
            None => r == Err::<Res, Error>(Error::Other(parse_error)),
        },
{
    if is_success(status) {
        match success {
            Some(v) => Ok(v),
            None => Err(Error::Other(parse_error)),
        }
    } else {
        match failure {
            Some(e) => Err(Error::Response(e)),
            None => Err(Error::Other(parse_error)),
        }
    }
}

} // verus!
