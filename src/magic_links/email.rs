//! Sending a magic link by email.
use vstd::prelude::*;
use vstd::string::*;
use crate::request::{Method, Request};

verus! {

#[derive(Debug, Clone, Default)]
pub struct SendRequest {
    pub email: String,
    pub login_magic_link_url: Option<String>,
    pub signup_magic_link_url: Option<String>,
    pub login_expiration_minutes: Option<u32>,
    pub signup_expiration_minutes: Option<u32>,
}

#[derive(Debug, Clone)]
pub struct SendResponse {
    pub status_code: u16,
    pub request_id: String,
    pub user_id: String,
    pub email_id: String,
}

impl SendRequest {
    /// Binds the body to `POST magic_links/email/send`.
    pub fn build(self) -> (r: Request<SendRequest>)
        ensures
            r.method == Method::Post,
            r.path@ == "magic_links/email/send"@,
            r.body == self,
    {
        Request { method: Method::Post, path: String::from_str("magic_links/email/send"), body: self }
    }
}

} // verus!
