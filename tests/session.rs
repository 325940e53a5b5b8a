use stytch::wire::Value;
use stytch::{Attributes, AuthenticationFactor, Factor, Session, Timestamp, User};

fn timestamp(s: &str) -> Timestamp {
    let d = chrono::DateTime::parse_from_rfc3339(s).unwrap();
    Timestamp { seconds: d.timestamp(), nanos: d.timestamp_subsec_nanos() }
}

fn to_value(v: &serde_json::Value) -> Value {
    match v {
        serde_json::Value::String(s) => Value::Text(s.clone()),
        serde_json::Value::Array(items) => Value::List(items.iter().map(to_value).collect()),
        serde_json::Value::Object(map) => {
            Value::Object(map.iter().map(|(k, v)| (k.clone(), to_value(v))).collect())
        }
        other => panic!("unexpected JSON value {other}"),
    }
}

fn text(s: &str) -> Value {
    Value::Text(s.to_string())
}

fn object(fields: Vec<(&str, Value)>) -> Value {
    Value::Object(fields.into_iter().map(|(k, v)| (k.to_string(), v)).collect())
}

fn email_factor() -> AuthenticationFactor {
    AuthenticationFactor {
        delivery_method: "email".to_string(),
        kind: "magic_link".to_string(),
        last_authenticated_at: timestamp("2021-08-09T07:41:52Z"),
        factor: Factor::Email {
            id: "email-test-81bf03a8-86e1-4d95-bd44-bb3495224953".to_string(),
            address: "sandbox@stytch.com".to_string(),
        },
    }
}

fn phone_factor() -> AuthenticationFactor {
    AuthenticationFactor {
        delivery_method: "sms".to_string(),
        kind: "otp".to_string(),
        last_authenticated_at: Timestamp { seconds: 1628494912, nanos: 500 },
        factor: Factor::PhoneNumber {
            id: "phone-number-test-1".to_string(),
            number: "+12025550162".to_string(),
        },
    }
}

fn sample_session(factors: Vec<AuthenticationFactor>) -> Session {
    Session {
        session_id: "session-test-fe6c042b-6286-479f-8a4f-b046a6c46509".to_string(),
        user_id: "user-test-16d9ba61-97a1-4ba4-9720-b03761dc50c6".to_string(),
        authentication_factors: factors,
        started_at: timestamp("2021-08-09T07:41:52Z"),
        expires_at: timestamp("2021-08-10T07:41:52Z"),
        last_accessed_at: timestamp("2021-08-09T07:41:52Z"),
        attributes: Attributes {
            ip_address: "203.0.113.1".to_string(),
            user_agent: "curl/7.79.1".to_string(),
        },
    }
}

#[test]
fn deserialize_session() {
    let data = r#"
{
  "attributes": {
    "ip_address": "203.0.113.1",
    "user_agent": "Mozilla/5.0 (X11; Linux x86_64) AppleWebKit/537.36 (KHTML, like Gecko) Chrome/51.0.2704.103 Safari/537.36"
  },
  "authentication_factors": [
    {
      "delivery_method": "email",
      "email_factor": {
        "email_address": "sandbox@stytch.com",
        "email_id": "email-test-81bf03a8-86e1-4d95-bd44-bb3495224953"
      },
      "last_authenticated_at": "2021-08-09T07:41:52Z",
      "type": "magic_link"
    }
  ],
  "expires_at": "2021-08-10T07:41:52Z",
  "last_accessed_at": "2021-08-09T07:41:52Z",
  "session_id": "session-test-fe6c042b-6286-479f-8a4f-b046a6c46509",
  "started_at": "2021-08-09T07:41:52Z",
  "user_id": "user-test-16d9ba61-97a1-4ba4-9720-b03761dc50c6"
}
        "#;
    let json: serde_json::Value = serde_json::from_str(data).unwrap();
    let session = Session::from_wire(&to_value(&json)).unwrap();

    let expected = Session {
        attributes: Attributes {
            ip_address: "203.0.113.1".to_string(),
            user_agent: "Mozilla/5.0 (X11; Linux x86_64) AppleWebKit/537.36 (KHTML, like Gecko) Chrome/51.0.2704.103 Safari/537.36".to_string(),
        },
        authentication_factors: vec![AuthenticationFactor {
            delivery_method: "email".to_string(),
            factor: Factor::Email {
                address: "sandbox@stytch.com".to_string(),
                id: "email-test-81bf03a8-86e1-4d95-bd44-bb3495224953".to_string(),
            },
            last_authenticated_at: timestamp("2021-08-09T07:41:52Z"),
            kind: "magic_link".to_string(),
        }],
        expires_at: timestamp("2021-08-10T07:41:52Z"),
        last_accessed_at: timestamp("2021-08-09T07:41:52Z"),
        session_id: "session-test-fe6c042b-6286-479f-8a4f-b046a6c46509".to_string(),
        started_at: timestamp("2021-08-09T07:41:52Z"),
        user_id: "user-test-16d9ba61-97a1-4ba4-9720-b03761dc50c6".to_string(),
    };
    assert_eq!(session, expected);
}

#[test]
fn rfc3339_text_is_read_as_an_instant() {
    let t = timestamp("2021-08-09T07:41:52Z");
    assert_eq!(t, Timestamp { seconds: 1628494912, nanos: 0 });
    let offset = object(vec![
        ("delivery_method", text("email")),
        ("type", text("magic_link")),
        ("last_authenticated_at", text("2021-08-09T09:41:52.25+02:00")),
        ("email_factor", object(vec![("email_id", text("e1")), ("email_address", text("a@b.c"))])),
    ]);
    let f = AuthenticationFactor::from_wire(&offset).unwrap();
    assert_eq!(f.last_authenticated_at, Timestamp { seconds: 1628494912, nanos: 250_000_000 });
}

#[test]
fn session_round_trips_through_the_wire() {
    let s = sample_session(vec![email_factor(), phone_factor()]);
    let back = Session::from_wire(&s.to_wire()).unwrap();
    assert_eq!(back, s);
}

#[test]
fn session_without_factors_round_trips() {
    let s = sample_session(vec![]);
    assert_eq!(Session::from_wire(&s.to_wire()), Some(s));
}

#[test]
fn factor_is_merged_into_its_object() {
    let v = email_factor().to_wire();
    let Value::Object(fields) = &v else { panic!("not an object") };
    let keys: Vec<&str> = fields.iter().map(|(k, _)| k.as_str()).collect();
    assert_eq!(keys, vec!["delivery_method", "type", "last_authenticated_at", "email_factor"]);
    let Value::Object(inner) = &fields[3].1 else { panic!("not an object") };
    assert_eq!(inner[0].0, "email_id");
    assert_eq!(inner[1].0, "email_address");
    assert!(matches!(&inner[1].1, Value::Text(a) if a == "sandbox@stytch.com"));

    let p = phone_factor().to_wire();
    let Value::Object(fields) = &p else { panic!("not an object") };
    assert_eq!(fields[3].0, "phone_number_factor");
    assert_eq!(AuthenticationFactor::from_wire(&p), Some(phone_factor()));
}

#[test]
fn unknown_keys_are_ignored() {
    let v = object(vec![
        ("delivery_method", text("sms")),
        ("type", text("otp")),
        ("extra", text("ignored")),
        ("last_authenticated_at", text("2021-08-09T07:41:52Z")),
        ("phone_number_factor", object(vec![
            ("phone_number", text("+1")),
            ("carrier", text("x")),
            ("phone_id", text("p1")),
        ])),
    ]);
    let f = AuthenticationFactor::from_wire(&v).unwrap();
    assert_eq!(f.factor, Factor::PhoneNumber { id: "p1".to_string(), number: "+1".to_string() });
}

#[test]
fn unknown_factor_is_rejected() {
    let v = object(vec![
        ("delivery_method", text("webauthn")),
        ("type", text("webauthn")),
        ("last_authenticated_at", text("2021-08-09T07:41:52Z")),
        ("webauthn_factor", object(vec![("webauthn_registration_id", text("w1"))])),
    ]);
    assert_eq!(AuthenticationFactor::from_wire(&v), None);
}

#[test]
fn factor_with_both_tags_is_rejected() {
    let v = object(vec![
        ("delivery_method", text("email")),
        ("type", text("magic_link")),
        ("last_authenticated_at", text("2021-08-09T07:41:52Z")),
        ("email_factor", object(vec![("email_id", text("e1")), ("email_address", text("a@b.c"))])),
        ("phone_number_factor", object(vec![("phone_id", text("p1")), ("phone_number", text("+1"))])),
    ]);
    assert_eq!(AuthenticationFactor::from_wire(&v), None);
}

#[test]
fn factor_missing_a_field_is_rejected() {
    let v = object(vec![
        ("delivery_method", text("email")),
        ("type", text("magic_link")),
        ("last_authenticated_at", text("2021-08-09T07:41:52Z")),
        ("email_factor", object(vec![("email_id", text("e1"))])),
    ]);
    assert_eq!(AuthenticationFactor::from_wire(&v), None);
    let bad_time = object(vec![
        ("delivery_method", text("email")),
        ("type", text("magic_link")),
        ("last_authenticated_at", text("yesterday")),
        ("email_factor", object(vec![("email_id", text("e1")), ("email_address", text("a"))])),
    ]);
    assert_eq!(AuthenticationFactor::from_wire(&bad_time), None);
}

#[test]
fn session_missing_a_field_is_rejected() {
    let s = sample_session(vec![email_factor()]);
    let Value::Object(mut fields) = s.to_wire() else { panic!("not an object") };
    fields.remove(1);
    assert_eq!(Session::from_wire(&Value::Object(fields)), None);
    assert_eq!(Session::from_wire(&text("session")), None);
}

#[test]
fn user_is_an_empty_object() {
    let v = User {}.to_wire();
    assert!(matches!(&v, Value::Object(f) if f.is_empty()));
    assert_eq!(User::from_wire(&v), Some(User {}));
    assert_eq!(User::from_wire(&text("user")), None);
}

#[test]
fn attributes_default_to_empty_strings() {
    let a = Attributes::default();
    assert_eq!(a.ip_address, "");
    assert_eq!(a.user_agent, "");
}
