//! Configuration and the authenticated client state built from it.
use vstd::prelude::*;
use vstd::string::*;
use vstd::utf8::encode_utf8;
use crate::env::BaseUrl;
use crate::error::Error;

verus! {

#[verifier::external_type_specification]
#[verifier::external_body]
pub struct ExHeaderValue(http::header::HeaderValue);

/// What `base64::encode` gives for the bytes: their encoding in the
/// standard alphabet, with padding. It depends on the bytes alone.
pub uninterp spec fn base64_standard(b: Seq<u8>) -> Seq<char>;

/// Relies on `base64::encode`.
#[verifier::external_body]
fn encode_base64(b: &[u8]) -> (r: String)
    ensures
        r@ == base64_standard(b@),
{
    base64::encode(b)
}

/// A byte that `http::HeaderValue` accepts in a value: a tab, or any byte
/// from space up but DEL.
pub open spec fn header_byte(b: u8) -> bool {
    (b >= 32 && b != 127) || b == 9
}

pub open spec fn header_bytes(s: Seq<u8>) -> bool {
    forall|i: int| 0 <= i < s.len() ==> header_byte(#[trigger] s[i])
}

/// Relies on `http::HeaderValue::from_str`, which accepts exactly the text
/// whose every byte passes its validity test.
#[verifier::external_body]
fn header_value(s: &str) -> (r: Result<http::header::HeaderValue, http::header::InvalidHeaderValue>)
    ensures
        r is Ok <==> header_bytes(s.spec_bytes()),
{
    http::header::HeaderValue::from_str(s)
}

/// Where the service is and whose credentials are used.
#[derive(Debug, Clone)]
pub struct Config {
    pub base_url: BaseUrl,
    pub project_id: String,
    pub secret: String,
}

/// The credentials as HTTP Basic authentication writes them:
/// `Basic ` and the base64 of `project_id:secret`.
pub open spec fn authorization_text(project_id: Seq<char>, secret: Seq<char>) -> Seq<char> {
    seq!['B', 'a', 's', 'i', 'c', ' '] + base64_standard(
        encode_utf8(project_id + seq![':'] + secret),
    )
}

/// The state every request is sent with: the authorization header and the
/// base URL that paths are joined to.
#[derive(Debug)]
pub struct Client {
    pub authorization: http::header::HeaderValue,
    pub base_url: BaseUrl,
}

impl Client {
    /// Builds the authorization header once, failing at once where it is not
    /// a valid header value.
    pub fn new(config: Config) -> (r: Result<Client, Error>)
        ensures
            r is Ok <==> header_bytes(
                encode_utf8(authorization_text(config.project_id@, config.secret@)),
            ),
            r is Ok ==> r->Ok_0.base_url == config.base_url,
            r is Err ==> r->Err_0 is InvalidHeaderValue,
    {
        let credentials = config.project_id.clone().concat(":").concat(config.secret.as_str());
        proof {
            reveal_strlit(":");
        }
        assert(credentials@ =~= config.project_id@ + seq![':'] + config.secret@);
        let bytes = credentials.as_str().as_bytes();
        assert(bytes@ == encode_utf8(credentials@));
        let encoded = encode_base64(bytes);
        let text = String::from_str("Basic ").concat(encoded.as_str());
        proof {
            reveal_strlit("Basic ");
        }
        assert(text@ =~= authorization_text(config.project_id@, config.secret@));
        match header_value(text.as_str()) {
            Ok(authorization) => Ok(Client { authorization, base_url: config.base_url }),
            Err(e) => Err(Error::InvalidHeaderValue(e)),
        }
    }
}

} // verus!
