//! Authenticating and revoking sessions.
use vstd::prelude::*;
use vstd::string::*;
use crate::model::Session;
use crate::request::{Method, Request};

verus! {

#[derive(Debug, Clone, Default)]
pub struct AuthenticateRequest {
    pub session_duration_minutes: Option<u32>,
    pub session_token: Option<String>,
    pub session_jwt: Option<String>,
}

/// On the wire an absent `session_token` is the empty string (see
/// `crate::wire::none_as_empty` and `crate::wire::empty_as_none`).
#[derive(Debug, Clone)]
pub struct AuthenticateResponse {
    pub status_code: u16,
    pub request_id: String,
    pub session: Session,
    pub session_token: Option<String>,
    pub session_jwt: String,
}

impl AuthenticateRequest {
    /// Binds the body to `POST sessions/authenticate`.
    pub fn build(self) -> (r: Request<AuthenticateRequest>)
        ensures
            r.method == Method::Post,
            r.path@ == "sessions/authenticate"@,
            r.body == self,
    {
        Request { method: Method::Post, path: String::from_str("sessions/authenticate"), body: self }
    }
}

#[derive(Debug, Clone, Default)]
pub struct RevokeRequest {
    pub session_id: Option<String>,
    pub session_token: Option<String>,
    pub session_jwt: Option<String>,
}

#[derive(Debug, Clone)]
pub struct RevokeResponse {
    pub status_code: u16,
    pub request_id: String,
}

impl RevokeRequest {
    /// Binds the body to `POST sessions/revoke`.
    pub fn build(self) -> (r: Request<RevokeRequest>)
        ensures
            r.method == Method::Post,
            r.path@ == "sessions/revoke"@,
            r.body == self,
    {
        Request { method: Method::Post, path: String::from_str("sessions/revoke"), body: self }
    }
}

} // verus!
