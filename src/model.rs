//! The session data model.
use vstd::prelude::*;

verus! {

/// An instant in UTC: whole seconds since the Unix epoch and the nanoseconds
/// past that second.
#[derive(Debug, Clone, Copy, PartialEq, Eq, Structural)]
pub struct Timestamp {
    pub seconds: i64,
    pub nanos: u32,
}

/// A user of the service. No fields are modelled yet; it travels as an
/// empty object.
#[derive(Debug, Clone, Copy, PartialEq, Eq, Structural)]
pub struct User {}

/// Where a session was started from.
#[derive(Debug, Clone, PartialEq, Eq)]
pub struct Attributes {
    pub ip_address: String,
    pub user_agent: String,
}

impl Default for Attributes {
    fn default() -> (r: Attributes)
        ensures
            r.ip_address@ == Seq::<char>::empty(),
            r.user_agent@ == Seq::<char>::empty(),
    {
        Attributes { ip_address: String::new(), user_agent: String::new() }
    }
}

/// The means by which a factor was verified.
#[derive(Debug, Clone, PartialEq, Eq)]
pub enum Factor {
    Email { id: String, address: String },
    PhoneNumber { id: String, number: String },
}

/// One verified means of authentication within a session.
#[derive(Debug, Clone, PartialEq, Eq)]
pub struct AuthenticationFactor {
    pub delivery_method: String,
    pub kind: String,
    pub last_authenticated_at: Timestamp,
    pub factor: Factor,
}

/// An authenticated session as the service reports it.
#[derive(Debug, Clone, PartialEq, Eq)]
pub struct Session {
    pub session_id: String,
    pub user_id: String,
    pub authentication_factors: Vec<AuthenticationFactor>,
    pub started_at: Timestamp,
    pub expires_at: Timestamp,
    pub last_accessed_at: Timestamp,
    pub attributes: Attributes,
}

} // verus!
