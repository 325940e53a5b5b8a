//! Magic links: authenticating with the token a link carried.
use vstd::prelude::*;
use vstd::string::*;
use crate::model::{Session, User};
use crate::request::{Method, Request};

pub mod email;

verus! {

#[derive(Debug, Clone, Default)]
pub struct AuthenticateRequest {
    pub token: String,
    pub session_duration_minutes: Option<u32>,
    pub session_token: Option<String>,
    pub session_jwt: Option<String>,
}

#[derive(Debug, Clone)]
pub struct AuthenticateResponse {
    pub status_code: u16,
    pub request_id: String,
    pub user_id: String,
    pub user: User,
    pub session: Option<Session>,
    pub session_token: String,
    pub session_jwt: String,
}

impl AuthenticateRequest {
    /// Binds the body to `POST magic_links/authenticate`.
    pub fn build(self) -> (r: Request<AuthenticateRequest>)
        ensures
            r.method == Method::Post,
            r.path@ == "magic_links/authenticate"@,
            r.body == self,
    {
        Request { method: Method::Post, path: String::from_str("magic_links/authenticate"), body: self }
    }
}

} // verus!
