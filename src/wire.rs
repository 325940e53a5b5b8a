//! The wire form of the data model: a JSON-shaped tree, and the encoding
//! that merges a factor's variant into the object of its authentication
//! factor.
use vstd::prelude::*;
use crate::model::{Attributes, AuthenticationFactor, Factor, Session, Timestamp, User};

verus! {

/// A JSON-shaped value. Instants appear either as `Time` (as this library
/// writes them) or as RFC 3339 `Text` (as they arrive on the wire).
#[derive(Debug)]
pub enum Value {
    Text(String),
    Time(Timestamp),
    Object(Vec<(String, Value)>),
    List(Vec<Value>),
}

/// The value under `key`: that of the first entry with that key.
pub open spec fn lookup(fields: Seq<(String, Value)>, key: Seq<char>) -> Option<Value>
    decreases fields.len(),
{
    if fields.len() == 0 {
        None
    } else if fields[0].0@ == key {
        Some(fields[0].1)
    } else {
        lookup(fields.drop_first(), key)
    }
}

fn same_text(a: &str, b: &str) -> (r: bool)
    ensures
        r == (a@ == b@),
{
    let n = a.unicode_len();
    if n != b.unicode_len() {
        return false;
    }
    let mut i: usize = 0;
    while i < n
        invariant
            n == a@.len(),
            n == b@.len(),
            i <= n,
            a@.subrange(0, i as int) == b@.subrange(0, i as int),
        decreases n - i,
    {
        if a.get_char(i) != b.get_char(i) {
            return false;
        }
        assert(a@.subrange(0, i + 1) =~= a@.subrange(0, i as int).push(a@[i as int]));
        assert(b@.subrange(0, i + 1) =~= b@.subrange(0, i as int).push(b@[i as int]));
        i = i + 1;
    }
    assert(a@ =~= a@.subrange(0, n as int));
    assert(b@ =~= b@.subrange(0, n as int));
    true
}

fn find<'a>(fields: &'a Vec<(String, Value)>, key: &str) -> (r: Option<&'a Value>)
    ensures
        match r {
            Some(v) => lookup(fields@, key@) == Some(*v),
            None => lookup(fields@, key@) is None,
        },
{
    let mut i: usize = 0;
    assert(fields@.subrange(0, fields@.len() as int) =~= fields@);
    while i < fields.len()
        invariant
            i <= fields@.len(),
            lookup(fields@, key@) == lookup(fields@.subrange(i as int, fields@.len() as int), key@),
        decreases fields@.len() - i,
    {
        assert(fields@.subrange(i as int, fields@.len() as int).drop_first() =~= fields@.subrange(
            i + 1,
            fields@.len() as int,
        ));
        if same_text(fields[i].0.as_str(), key) {
            return Some(&fields[i].1);
        }
        i = i + 1;
    }
    None
}

} // verus!

verus! {

/// What `chrono::DateTime::parse_from_rfc3339` reads from the text, as whole
/// seconds since the Unix epoch and the nanoseconds past them, or `None` where
/// it rejects the text. It depends on the text alone.
pub uninterp spec fn rfc3339_instant(s: Seq<char>) -> Option<(i64, u32)>;

/// Relies on `chrono::DateTime::parse_from_rfc3339`, and on `timestamp` and
/// `timestamp_subsec_nanos` to read the instant it parsed.
#[verifier::external_body]
fn parse_rfc3339(s: &str) -> (r: Option<(i64, u32)>)
    ensures
        r == rfc3339_instant(s@),
{
    match chrono::DateTime::parse_from_rfc3339(s) {
        Ok(d) => Some((d.timestamp(), d.timestamp_subsec_nanos())),
        Err(_) => None,
    }
}

pub open spec fn text_of(v: Option<Value>) -> Option<String> {
    match v {
        Some(Value::Text(s)) => Some(s),
        _ => None,
    }
}

/// An instant: written as `Time`, or as RFC 3339 text.
pub open spec fn time_of(v: Option<Value>) -> Option<Timestamp> {
    match v {
        Some(Value::Time(t)) => Some(t),
        Some(Value::Text(s)) => match rfc3339_instant(s@) {
            Some(p) => Some(Timestamp { seconds: p.0, nanos: p.1 }),
            None => None,
        },
        _ => None,
    }
}

/// Two text fields of a nested object.
pub open spec fn pair_of(v: Option<Value>, k1: Seq<char>, k2: Seq<char>) -> Option<(String, String)> {
    match v {
        Some(Value::Object(inner)) => match (text_of(lookup(inner@, k1)), text_of(lookup(inner@, k2))) {
            (Some(a), Some(b)) => Some((a, b)),
            _ => None,
        },
        _ => None,
    }
}

/// The factor merged into an authentication factor's object. The variant is
/// told by which tag key is present; where both or neither are, or where the
/// tagged object lacks a field, there is none.
pub open spec fn factor_of(fields: Seq<(String, Value)>) -> Option<Factor> {
    let email = lookup(fields, "email_factor"@);
    let phone = lookup(fields, "phone_number_factor"@);
    if email is Some && phone is Some {
        None
    } else if email is Some {
        match pair_of(email, "email_id"@, "email_address"@) {
            Some(p) => Some(Factor::Email { id: p.0, address: p.1 }),
            None => None,
        }
    } else if phone is Some {
        match pair_of(phone, "phone_id"@, "phone_number"@) {
            Some(p) => Some(Factor::PhoneNumber { id: p.0, number: p.1 }),
            None => None,
        }
    } else {
        None
    }
}

pub open spec fn authentication_factor_of(fields: Seq<(String, Value)>) -> Option<AuthenticationFactor> {
    match (
        text_of(lookup(fields, "delivery_method"@)),
        text_of(lookup(fields, "type"@)),
        time_of(lookup(fields, "last_authenticated_at"@)),
        factor_of(fields),
    ) {
        (Some(d), Some(k), Some(t), Some(f)) => Some(
            AuthenticationFactor { delivery_method: d, kind: k, last_authenticated_at: t, factor: f },
        ),
        _ => None,
    }
}

/// An authentication factor read from a value, which must be an object.
pub open spec fn factor_item_of(v: Value) -> Option<AuthenticationFactor> {
    match v {
        Value::Object(f) => authentication_factor_of(f@),
        _ => None,
    }
}

/// A list of authentication factors; none where one item does not read.
pub open spec fn factors_of(v: Option<Value>) -> Option<Seq<AuthenticationFactor>> {
    match v {
        Some(Value::List(items)) => if forall|i: int|
            0 <= i < items@.len() ==> (#[trigger] factor_item_of(items@[i])) is Some {
            Some(items@.map_values(|x: Value| factor_item_of(x).unwrap()))
        } else {
            None
        },
        _ => None,
    }
}

pub open spec fn attributes_of(v: Option<Value>) -> Option<Attributes> {
    match pair_of(v, "ip_address"@, "user_agent"@) {
        Some(p) => Some(Attributes { ip_address: p.0, user_agent: p.1 }),
        None => None,
    }
}

/// The object reads as a session: every field is present with its shape.
pub open spec fn session_reads(fields: Seq<(String, Value)>) -> bool {
    &&& text_of(lookup(fields, "session_id"@)) is Some
    &&& text_of(lookup(fields, "user_id"@)) is Some
    &&& factors_of(lookup(fields, "authentication_factors"@)) is Some
    &&& time_of(lookup(fields, "started_at"@)) is Some
    &&& time_of(lookup(fields, "expires_at"@)) is Some
    &&& time_of(lookup(fields, "last_accessed_at"@)) is Some
    &&& attributes_of(lookup(fields, "attributes"@)) is Some
}

/// Each field of `s` is what the object holds for it.
pub open spec fn session_matches(s: Session, fields: Seq<(String, Value)>) -> bool {
    &&& text_of(lookup(fields, "session_id"@)) == Some(s.session_id)
    &&& text_of(lookup(fields, "user_id"@)) == Some(s.user_id)
    &&& factors_of(lookup(fields, "authentication_factors"@)) == Some(s.authentication_factors@)
    &&& time_of(lookup(fields, "started_at"@)) == Some(s.started_at)
    &&& time_of(lookup(fields, "expires_at"@)) == Some(s.expires_at)
    &&& time_of(lookup(fields, "last_accessed_at"@)) == Some(s.last_accessed_at)
    &&& attributes_of(lookup(fields, "attributes"@)) == Some(s.attributes)
}

/// The entry has the key and the value.
pub open spec fn is_entry(e: (String, Value), key: Seq<char>, v: Value) -> bool {
    e.0@ == key && e.1 == v
}

/// `v` is the object of two text fields that this library writes.
pub open spec fn encodes_pair(v: Value, k1: Seq<char>, a: String, k2: Seq<char>, b: String) -> bool {
    match v {
        Value::Object(inner) => {
            &&& inner@.len() == 2
            &&& is_entry(inner@[0], k1, Value::Text(a))
            &&& is_entry(inner@[1], k2, Value::Text(b))
        },
        _ => false,
    }
}

/// `fields` is the merged object that this library writes for `af`: its
/// own fields, then the factor's tag key beside them.
pub open spec fn encodes_factor(fields: Seq<(String, Value)>, af: AuthenticationFactor) -> bool {
    &&& fields.len() == 4
    &&& is_entry(fields[0], "delivery_method"@, Value::Text(af.delivery_method))
    &&& is_entry(fields[1], "type"@, Value::Text(af.kind))
    &&& is_entry(fields[2], "last_authenticated_at"@, Value::Time(af.last_authenticated_at))
    &&& match af.factor {
        Factor::Email { id, address } => fields[3].0@ == "email_factor"@ && encodes_pair(
            fields[3].1,
            "email_id"@,
            id,
            "email_address"@,
            address,
        ),
        Factor::PhoneNumber { id, number } => fields[3].0@ == "phone_number_factor"@
            && encodes_pair(fields[3].1, "phone_id"@, id, "phone_number"@, number),
    }
}

/// `v` is the object that this library writes for `s`.
pub open spec fn encodes_session(v: Value, s: Session) -> bool {
    match v {
        Value::Object(fields) => {
            &&& fields@.len() == 7
            &&& is_entry(fields@[0], "session_id"@, Value::Text(s.session_id))
            &&& is_entry(fields@[1], "user_id"@, Value::Text(s.user_id))
            &&& fields@[2].0@ == "authentication_factors"@
            &&& match fields@[2].1 {
                Value::List(items) => {
                    &&& items@.len() == s.authentication_factors@.len()
                    &&& forall|i: int|
                        0 <= i < items@.len() ==> match #[trigger] items@[i] {
                            Value::Object(f) => encodes_factor(f@, s.authentication_factors@[i]),
                            _ => false,
                        }
                },
                _ => false,
            }
            &&& is_entry(fields@[3], "started_at"@, Value::Time(s.started_at))
            &&& is_entry(fields@[4], "expires_at"@, Value::Time(s.expires_at))
            &&& is_entry(fields@[5], "last_accessed_at"@, Value::Time(s.last_accessed_at))
            &&& fields@[6].0@ == "attributes"@
            &&& encodes_pair(
                fields@[6].1,
                "ip_address"@,
                s.attributes.ip_address,
                "user_agent"@,
                s.attributes.user_agent,
            )
        },
        _ => false,
    }
}

} // verus!

verus! {

fn text_at(fields: &Vec<(String, Value)>, key: &str) -> (r: Option<String>)
    ensures
        r == text_of(lookup(fields@, key@)),
{
    match find(fields, key) {
        Some(Value::Text(s)) => Some(s.clone()),
        _ => None,
    }
}

fn time_at(fields: &Vec<(String, Value)>, key: &str) -> (r: Option<Timestamp>)
    ensures
        r == time_of(lookup(fields@, key@)),
{
    match find(fields, key) {
        Some(Value::Time(t)) => Some(*t),
        Some(Value::Text(s)) => match parse_rfc3339(s.as_str()) {
            Some((seconds, nanos)) => Some(Timestamp { seconds, nanos }),
            None => None,
        },
        _ => None,
    }
}

fn pair_at(fields: &Vec<(String, Value)>, key: &str, k1: &str, k2: &str) -> (r: Option<
    (String, String),
>)
    ensures
        r == pair_of(lookup(fields@, key@), k1@, k2@),
{
    match find(fields, key) {
        Some(Value::Object(inner)) => match (text_at(inner, k1), text_at(inner, k2)) {
            (Some(a), Some(b)) => Some((a, b)),
            _ => None,
        },
        _ => None,
    }
}

fn text_value(s: &String) -> (r: Value)
    ensures
        r == Value::Text(*s),
{
    Value::Text(s.clone())
}

fn text_pair(k1: &str, a: &String, k2: &str, b: &String) -> (r: Value)
    ensures
        encodes_pair(r, k1@, *a, k2@, *b),
{
    let mut inner: Vec<(String, Value)> = Vec::new();
    inner.push((String::from_str(k1), text_value(a)));
    inner.push((String::from_str(k2), text_value(b)));
    Value::Object(inner)
}

impl Factor {
    /// Reads the factor merged into an authentication factor's object.
    pub fn from_fields(fields: &Vec<(String, Value)>) -> (r: Option<Factor>)
        ensures
            r == factor_of(fields@),
    {
        let has_email = find(fields, "email_factor").is_some();
        let has_phone = find(fields, "phone_number_factor").is_some();
        if has_email && has_phone {
            None
        } else if has_email {
            match pair_at(fields, "email_factor", "email_id", "email_address") {
                Some((id, address)) => Some(Factor::Email { id, address }),
                None => None,
            }
        } else if has_phone {
            match pair_at(fields, "phone_number_factor", "phone_id", "phone_number") {
                Some((id, number)) => Some(Factor::PhoneNumber { id, number }),
                None => None,
            }
        } else {
            None
        }
    }
}

impl AuthenticationFactor {
    /// Reads an authentication factor from its merged object.
    pub fn from_wire(v: &Value) -> (r: Option<AuthenticationFactor>)
        ensures
            r == factor_item_of(*v),
    {
        match v {
            Value::Object(fields) => {
                let delivery_method = text_at(fields, "delivery_method");
                let kind = text_at(fields, "type");
                let at = time_at(fields, "last_authenticated_at");
                let factor = Factor::from_fields(fields);
                match (delivery_method, kind, at, factor) {
                    (Some(delivery_method), Some(kind), Some(last_authenticated_at), Some(factor)) => {
                        Some(AuthenticationFactor { delivery_method, kind, last_authenticated_at, factor })
                    },
                    _ => None,
                }
            },
            _ => None,
        }
    }

    /// Writes the authentication factor as one object, with the factor's
    /// tag key among its own fields.
    pub fn to_wire(&self) -> (r: Value)
        ensures
            r is Object,
            encodes_factor(r->Object_0@, *self),
    {
        let mut fields: Vec<(String, Value)> = Vec::new();
        fields.push((String::from_str("delivery_method"), text_value(&self.delivery_method)));
        fields.push((String::from_str("type"), text_value(&self.kind)));
        fields.push(
            (String::from_str("last_authenticated_at"), Value::Time(self.last_authenticated_at)),
        );
        match &self.factor {
            Factor::Email { id, address } => {
                fields.push(
                    (
                        String::from_str("email_factor"),
                        text_pair("email_id", id, "email_address", address),
                    ),
                );
            },
            Factor::PhoneNumber { id, number } => {
                fields.push(
                    (
                        String::from_str("phone_number_factor"),
                        text_pair("phone_id", id, "phone_number", number),
                    ),
                );
            },
        }
        Value::Object(fields)
    }
}

impl Attributes {
    pub fn from_wire(v: &Value) -> (r: Option<Attributes>)
        ensures
            r == attributes_of(Some(*v)),
    {
        match v {
            Value::Object(inner) => match (text_at(inner, "ip_address"), text_at(inner, "user_agent")) {
                (Some(ip_address), Some(user_agent)) => Some(Attributes { ip_address, user_agent }),
                _ => None,
            },
            _ => None,
        }
    }

    pub fn to_wire(&self) -> (r: Value)
        ensures
            encodes_pair(r, "ip_address"@, self.ip_address, "user_agent"@, self.user_agent),
    {
        text_pair("ip_address", &self.ip_address, "user_agent", &self.user_agent)
    }
}

impl User {
    /// Any object reads as a user; its fields are not modelled.
    pub fn from_wire(v: &Value) -> (r: Option<User>)
        ensures
            r is Some <==> v is Object,
    {
        match v {
            Value::Object(_) => Some(User {  }),
            _ => None,
        }
    }

    /// A user is written as an empty object.
    pub fn to_wire(&self) -> (r: Value)
        ensures
            r is Object,
            r->Object_0@.len() == 0,
    {
        Value::Object(Vec::new())
    }
}

} // verus!

verus! {

fn factors_at(fields: &Vec<(String, Value)>, key: &str) -> (r: Option<Vec<AuthenticationFactor>>)
    ensures
        match r {
            Some(v) => factors_of(lookup(fields@, key@)) == Some(v@),
            None => factors_of(lookup(fields@, key@)) is None,
        },
{
    match find(fields, key) {
        Some(Value::List(items)) => {
            let mut out: Vec<AuthenticationFactor> = Vec::new();
            let mut i: usize = 0;
            while i < items.len()
                invariant
                    lookup(fields@, key@) == Some(Value::List(*items)),
                    i <= items@.len(),
                    out@ == items@.subrange(0, i as int).map_values(
                        |x: Value| factor_item_of(x).unwrap(),
                    ),
                    forall|j: int| 0 <= j < i ==> (#[trigger] factor_item_of(items@[j])) is Some,
                decreases items@.len() - i,
            {
                match AuthenticationFactor::from_wire(&items[i]) {
                    Some(af) => {
                        out.push(af);
                    },
                    None => {
                        assert(factor_item_of(items@[i as int]) is None);
                        return None;
                    },
                }
                assert(items@.subrange(0, i + 1).map_values(|x: Value| factor_item_of(x).unwrap())
                    =~= items@.subrange(0, i as int).map_values(
                    |x: Value| factor_item_of(x).unwrap(),
                ).push(factor_item_of(items@[i as int]).unwrap()));
                i = i + 1;
            }
            assert(items@.subrange(0, items@.len() as int) =~= items@);
            Some(out)
        },
        _ => None,
    }
}

impl Session {
    /// Reads a session from its object; `None` where a field is missing or
    /// has another shape.
    pub fn from_wire(v: &Value) -> (r: Option<Session>)
        ensures
            r is Some <==> (v is Object && session_reads(v->Object_0@)),
            r is Some ==> session_matches(r->Some_0, v->Object_0@),
    {
        match v {
            Value::Object(fields) => {
                let session_id = text_at(fields, "session_id");
                let user_id = text_at(fields, "user_id");
                let factors = factors_at(fields, "authentication_factors");
                let started_at = time_at(fields, "started_at");
                let expires_at = time_at(fields, "expires_at");
                let last_accessed_at = time_at(fields, "last_accessed_at");
                let attributes = match find(fields, "attributes") {
                    Some(a) => Attributes::from_wire(a),
                    None => None,
                };
                match (session_id, user_id, factors, started_at, expires_at, last_accessed_at, attributes) {
                    (
                        Some(session_id),
                        Some(user_id),
                        Some(authentication_factors),
                        Some(started_at),
                        Some(expires_at),
                        Some(last_accessed_at),
                        Some(attributes),
                    ) => Some(
                        Session {
                            session_id,
                            user_id,
                            authentication_factors,
                            started_at,
                            expires_at,
                            last_accessed_at,
                            attributes,
                        },
                    ),
                    _ => None,
                }
            },
            _ => None,
        }
    }

    /// Writes the session as one object, each authentication factor in its
    /// merged form.
    pub fn to_wire(&self) -> (r: Value)
        ensures
            encodes_session(r, *self),
    {
        let mut items: Vec<Value> = Vec::new();
        let mut i: usize = 0;
        while i < self.authentication_factors.len()
            invariant
                i <= self.authentication_factors@.len(),
                items@.len() == i,
                forall|j: int|
                    0 <= j < i ==> match #[trigger] items@[j] {
                        Value::Object(f) => encodes_factor(f@, self.authentication_factors@[j]),
                        _ => false,
                    },
            decreases self.authentication_factors@.len() - i,
        {
            items.push(self.authentication_factors[i].to_wire());
            i = i + 1;
        }
        let mut fields: Vec<(String, Value)> = Vec::new();
        fields.push((String::from_str("session_id"), text_value(&self.session_id)));
        fields.push((String::from_str("user_id"), text_value(&self.user_id)));
        fields.push((String::from_str("authentication_factors"), Value::List(items)));
        fields.push((String::from_str("started_at"), Value::Time(self.started_at)));
        fields.push((String::from_str("expires_at"), Value::Time(self.expires_at)));
        fields.push((String::from_str("last_accessed_at"), Value::Time(self.last_accessed_at)));
        fields.push((String::from_str("attributes"), self.attributes.to_wire()));
        Value::Object(fields)
    }
}

} // verus!

verus! {

/// Two sessions agree in every field (the factor lists element by element).
pub open spec fn same_session(a: Session, b: Session) -> bool {
    &&& a.session_id == b.session_id
    &&& a.user_id == b.user_id
    &&& a.authentication_factors@ == b.authentication_factors@
    &&& a.started_at == b.started_at
    &&& a.expires_at == b.expires_at
    &&& a.last_accessed_at == b.last_accessed_at
    &&& a.attributes == b.attributes
}

proof fn lemma_lookup_at(fields: Seq<(String, Value)>, key: Seq<char>, k: int)
    requires
        0 <= k < fields.len(),
        fields[k].0@ == key,
        forall|j: int| 0 <= j < k ==> (#[trigger] fields[j]).0@ != key,
    ensures
        lookup(fields, key) == Some(fields[k].1),
    decreases k,
{
    if k > 0 {
        assert(fields[0].0@ != key);
        let rest = fields.drop_first();
        assert forall|j: int| 0 <= j < k - 1 implies (#[trigger] rest[j]).0@ != key by {
            assert(rest[j] == fields[j + 1]);
        }
        lemma_lookup_at(rest, key, k - 1);
    }
}

proof fn lemma_lookup_absent(fields: Seq<(String, Value)>, key: Seq<char>)
    requires
        forall|j: int| 0 <= j < fields.len() ==> (#[trigger] fields[j]).0@ != key,
    ensures
        lookup(fields, key) is None,
    decreases fields.len(),
{
    if fields.len() > 0 {
        assert(fields[0].0@ != key);
        let rest = fields.drop_first();
        assert forall|j: int| 0 <= j < rest.len() implies (#[trigger] rest[j]).0@ != key by {
            assert(rest[j] == fields[j + 1]);
        }
        lemma_lookup_absent(rest, key);
    }
}

/// A pair written by this library reads back as that pair.
proof fn lemma_pair_round_trip(v: Value, k1: Seq<char>, a: String, k2: Seq<char>, b: String)
    requires
        encodes_pair(v, k1, a, k2, b),
        k1 != k2,
    ensures
        pair_of(Some(v), k1, k2) == Some((a, b)),
{
    let inner = v->Object_0@;
    lemma_lookup_at(inner, k1, 0);
    lemma_lookup_at(inner, k2, 1);
}

/// Reading back the merged object written for an authentication factor
/// gives that factor again.
pub proof fn lemma_factor_round_trip(fields: Seq<(String, Value)>, af: AuthenticationFactor)
    requires
        encodes_factor(fields, af),
    ensures
        authentication_factor_of(fields) == Some(af),
{
    reveal_strlit("delivery_method");
    reveal_strlit("type");
    reveal_strlit("last_authenticated_at");
    reveal_strlit("email_factor");
    reveal_strlit("phone_number_factor");
    reveal_strlit("email_id");
    reveal_strlit("email_address");
    reveal_strlit("phone_id");
    reveal_strlit("phone_number");
    let d = "delivery_method"@;
    let t = "type"@;
    let l = "last_authenticated_at"@;
    let e = "email_factor"@;
    let p = "phone_number_factor"@;
    assert(d.len() == 15 && t.len() == 4 && l.len() == 21 && e.len() == 12 && p.len() == 19);
    assert("email_id"@.len() == 8 && "email_address"@.len() == 13);
    assert("phone_id"@.len() == 8 && "phone_number"@.len() == 12);
    lemma_lookup_at(fields, d, 0);
    lemma_lookup_at(fields, t, 1);
    lemma_lookup_at(fields, l, 2);
    match af.factor {
        Factor::Email { id, address } => {
            lemma_lookup_at(fields, e, 3);
            lemma_lookup_absent(fields, p);
            lemma_pair_round_trip(fields[3].1, "email_id"@, id, "email_address"@, address);
        },
        Factor::PhoneNumber { id, number } => {
            lemma_lookup_at(fields, p, 3);
            lemma_lookup_absent(fields, e);
            lemma_pair_round_trip(fields[3].1, "phone_id"@, id, "phone_number"@, number);
        },
    }
}

/// Writing a session and reading it back gives the same session: the
/// object that this library writes for `s` reads as a session, and every
/// session read from it agrees with `s` in every field.
pub proof fn lemma_session_round_trip(v: Value, s: Session)
    requires
        encodes_session(v, s),
    ensures
        v is Object,
        session_reads(v->Object_0@),
        session_matches(s, v->Object_0@),
        forall|t: Session| session_matches(t, v->Object_0@) ==> same_session(t, s),
{
    reveal_strlit("session_id");
    reveal_strlit("user_id");
    reveal_strlit("authentication_factors");
    reveal_strlit("started_at");
    reveal_strlit("expires_at");
    reveal_strlit("last_accessed_at");
    reveal_strlit("attributes");
    reveal_strlit("ip_address");
    reveal_strlit("user_agent");
    let fields = v->Object_0@;
    let keys = seq![
        "session_id"@,
        "user_id"@,
        "authentication_factors"@,
        "started_at"@,
        "expires_at"@,
        "last_accessed_at"@,
        "attributes"@,
    ];
    assert(keys[0].len() == 10 && keys[1].len() == 7 && keys[2].len() == 22 && keys[3].len() == 10);
    assert(keys[4].len() == 10 && keys[5].len() == 16 && keys[6].len() == 10);
    assert(keys[0][1] != keys[3][1] && keys[0][0] != keys[4][0] && keys[0][0] != keys[6][0]);
    assert(keys[3][0] != keys[4][0] && keys[3][0] != keys[6][0] && keys[4][0] != keys[6][0]);
    assert("ip_address"@.len() == 10 && "user_agent"@.len() == 10 && "ip_address"@[0] != "user_agent"@[0]);
    assert forall|k: int| 0 <= k < 7 implies fields[k].0@ == keys[k] by {}
    lemma_lookup_at(fields, keys[0], 0);
    lemma_lookup_at(fields, keys[1], 1);
    lemma_lookup_at(fields, keys[2], 2);
    lemma_lookup_at(fields, keys[3], 3);
    lemma_lookup_at(fields, keys[4], 4);
    lemma_lookup_at(fields, keys[5], 5);
    lemma_lookup_at(fields, keys[6], 6);
    lemma_pair_round_trip(
        fields[6].1,
        "ip_address"@,
        s.attributes.ip_address,
        "user_agent"@,
        s.attributes.user_agent,
    );
    let items = fields[2].1->List_0@;
    assert forall|i: int| 0 <= i < items.len() implies factor_item_of(items[i]) == Some(
        s.authentication_factors@[i],
    ) by {
        match items[i] {
            Value::Object(f) => lemma_factor_round_trip(f@, s.authentication_factors@[i]),
            _ => {},
        }
    }
    assert(items.map_values(|x: Value| factor_item_of(x).unwrap()) =~= s.authentication_factors@);
}

} // verus!

verus! {

pub open spec fn text_view(o: Option<String>) -> Option<Seq<char>> {
    match o {
        Some(s) => Some(s@),
        None => None,
    }
}

/// The wire text of an optional field that travels as a string: the text
/// itself, or the empty string where it is absent.
pub open spec fn empty_for_none(o: Option<Seq<char>>) -> Seq<char> {
    match o {
        Some(s) => s,
        None => Seq::empty(),
    }
}

/// The optional field read from its wire text: absent where it is empty.
pub open spec fn none_for_empty(s: Seq<char>) -> Option<Seq<char>> {
    if s.len() == 0 {
        None
    } else {
        Some(s)
    }
}

/// Writes an optional text field, absent as the empty string.
pub fn none_as_empty(o: &Option<String>) -> (r: String)
    ensures
        r@ == empty_for_none(text_view(*o)),
{
    match o {
        Some(s) => s.clone(),
        None => String::new(),
    }
}

/// Reads an optional text field, the empty string as absent.
pub fn empty_as_none(s: &String) -> (r: Option<String>)
    ensures
        text_view(r) == none_for_empty(s@),
        r is Some ==> r->Some_0 == *s,
{
    if s.as_str().unicode_len() == 0 {
        None
    } else {
        Some(s.clone())
    }
}

/// Absent becomes the empty string and the empty string reads as absent;
/// any other text comes back unchanged.
pub proof fn lemma_empty_string_round_trip(o: Option<Seq<char>>)
    requires
        o != Some(Seq::<char>::empty()),
    ensures
        none_for_empty(empty_for_none(o)) == o,
        empty_for_none(None) == Seq::<char>::empty(),
        none_for_empty(Seq::<char>::empty()) is None,
{
    match o {
        Some(s) => {
            assert(s.len() != 0) by {
                if s.len() == 0 {
                    assert(s =~= Seq::<char>::empty());
                }
            }
        },
        None => {},
    }
}

} // verus!
