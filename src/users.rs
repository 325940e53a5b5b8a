//! Creating users.
use vstd::prelude::*;
use vstd::string::*;
use crate::model::{Attributes, User};
use crate::request::{Method, Request};

verus! {

#[derive(Debug, Clone, Default)]
pub struct Name {
    pub first_name: Option<String>,
    pub middle_name: Option<String>,
    pub last_name: Option<String>,
}

/// Whether a created user is active or awaits confirmation.
#[derive(Debug, Clone, Copy, PartialEq, Eq, Structural)]
pub enum Status {
    Active,
    Pending,
}

#[derive(Debug, Clone, Default)]
pub struct CreateRequest {
    pub email: Option<String>,
    pub phone_number: Option<String>,
    pub name: Option<Name>,
    pub create_user_as_pending: Option<bool>,
    pub attributes: Option<Attributes>,
}

#[derive(Debug, Clone)]
pub struct CreateResponse {
    pub status_code: u16,
    pub request_id: String,
    pub user_id: String,
    pub user: User,
    pub email_id: String,
    pub status: Status,
}

impl CreateRequest {
    /// Binds the body to `POST users`.
    pub fn build(self) -> (r: Request<CreateRequest>)
        ensures
            r.method == Method::Post,
            r.path@ == "users"@,
            r.body == self,
    {
        Request { method: Method::Post, path: String::from_str("users"), body: self }
    }
}

} // verus!
