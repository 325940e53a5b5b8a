use stytch::client::{Client, Config};
use stytch::magic_links::email::SendRequest;
use stytch::magic_links::AuthenticateRequest as MagicLinkAuthenticateRequest;
use stytch::sessions::{AuthenticateRequest, RevokeRequest};
use stytch::transport::{is_success, outcome};
use stytch::users::{CreateRequest, CreateResponse, Status};
use stytch::wire::{empty_as_none, none_as_empty};
use stytch::{BaseUrl, Env, Error, ErrorResponse, Method, User};

fn create_response() -> CreateResponse {
    CreateResponse {
        status_code: 201,
        request_id: "request-id-test-1".to_string(),
        user_id: "user-test-1".to_string(),
        user: User {},
        email_id: "email-test-1".to_string(),
        status: Status::Active,
    }
}

fn error_response() -> ErrorResponse {
    ErrorResponse {
        status_code: 400,
        request_id: "request-id-test-2".to_string(),
        error_type: "invalid_email".to_string(),
        error_message: "Email format is invalid.".to_string(),
        error_url: "https://stytch.com/docs/api/errors/400".to_string(),
    }
}

#[test]
fn requests_are_bound_to_their_endpoints() {
    let r = SendRequest { email: "sandbox@stytch.com".to_string(), ..Default::default() }.build();
    assert_eq!(r.method, Method::Post);
    assert_eq!(r.path, "magic_links/email/send");
    assert_eq!(r.body.email, "sandbox@stytch.com");

    let r = MagicLinkAuthenticateRequest { token: "t".to_string(), ..Default::default() }.build();
    assert_eq!((r.method, r.path.as_str(), r.body.token.as_str()), (Method::Post, "magic_links/authenticate", "t"));

    let r = AuthenticateRequest { session_duration_minutes: Some(60), ..Default::default() }.build();
    assert_eq!((r.method, r.path.as_str()), (Method::Post, "sessions/authenticate"));
    assert_eq!(r.body.session_duration_minutes, Some(60));

    let r = RevokeRequest { session_id: Some("s".to_string()), ..Default::default() }.build();
    assert_eq!((r.method, r.path.as_str()), (Method::Post, "sessions/revoke"));

    let r = CreateRequest::default().build();
    assert_eq!((r.method, r.path.as_str()), (Method::Post, "users"));
}

#[test]
fn method_names() {
    assert_eq!(Method::Post.as_str(), "POST");
    assert_eq!(Method::Get.as_str(), "GET");
    assert_eq!(Method::Delete.as_str(), "DELETE");
}

#[test]
fn success_statuses() {
    assert!(is_success(200));
    assert!(is_success(201));
    assert!(is_success(299));
    assert!(!is_success(199));
    assert!(!is_success(300));
    assert!(!is_success(400));
}

#[test]
fn created_reply_gives_the_response() {
    let r = outcome::<CreateResponse>(201, Some(create_response()), None, String::new()).unwrap();
    assert_eq!(r.user_id, "user-test-1");
    assert_eq!(r.status, Status::Active);
    assert_eq!(r.status_code, 201);
}

#[test]
fn error_reply_gives_the_service_error() {
    match outcome::<CreateResponse>(400, None, Some(error_response()), String::new()) {
        Err(Error::Response(e)) => assert_eq!(e, error_response()),
        other => panic!("unexpected {other:?}"),
    }
}

#[test]
fn unparsable_success_body_is_other() {
    match outcome::<CreateResponse>(200, None, None, "expected value at line 1".to_string()) {
        Err(Error::Other(m)) => assert_eq!(m, "expected value at line 1"),
        other => panic!("unexpected {other:?}"),
    }
}

#[test]
fn unparsable_error_body_is_other() {
    assert!(matches!(
        outcome::<CreateResponse>(503, None, None, "eof".to_string()),
        Err(Error::Other(m)) if m == "eof"
    ));
}

#[test]
fn absent_session_token_is_the_empty_string() {
    assert_eq!(none_as_empty(&None), "");
    assert_eq!(empty_as_none(&String::new()), None);
    assert_eq!(none_as_empty(&Some("tok".to_string())), "tok");
    assert_eq!(empty_as_none(&"tok".to_string()), Some("tok".to_string()));
    assert_eq!(empty_as_none(&none_as_empty(&None)), None);
}

#[test]
fn client_carries_basic_authorization() {
    let base_url = Env::Test.base_url().unwrap();
    let config = Config {
        base_url: base_url.clone(),
        project_id: "project".to_string(),
        secret: "secret".to_string(),
    };
    let client = Client::new(config).unwrap();
    assert_eq!(client.authorization.to_str().unwrap(), "Basic cHJvamVjdDpzZWNyZXQ=");
    assert_eq!(client.base_url, base_url);
}

#[test]
fn client_encodes_any_credential_bytes() {
    let config = Config {
        base_url: BaseUrl { href: "http://localhost/".to_string() },
        project_id: "pr\u{e9}\n".to_string(),
        secret: "\u{7f}".to_string(),
    };
    let client = Client::new(config).unwrap();
    assert_eq!(client.authorization.to_str().unwrap(), "Basic cHLDqQo6fw==");
}
