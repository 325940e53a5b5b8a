//! A typed client for a passwordless authentication service: environment
//! resolution, request binding, the error taxonomy, the session data model
//! with its merged factor encoding, and the decision that turns an HTTP
//! reply into a typed result.
pub mod client;
pub mod env;
pub mod error;
pub mod magic_links;
pub mod model;
pub mod request;
pub mod sessions;
pub mod transport;
pub mod users;
pub mod wire;

pub use client::{Client, Config};
pub use env::{BaseUrl, Env};
pub use error::{Error, ErrorResponse};
pub use model::{Attributes, AuthenticationFactor, Factor, Session, Timestamp, User};
pub use request::{Method, Request};
