//! Environments and their base URLs.
use vstd::prelude::*;
use vstd::string::*;

verus! {

/// The production endpoint, already in normalized form.
pub const LIVE_URL: &'static str = "https://api.stytch.com/v1/";

/// The sandbox endpoint, already in normalized form.
pub const TEST_URL: &'static str = "https://test.stytch.com/v1/";

/// What `url::Url::parse` serializes the parsed URL to, or `None` where it
/// rejects the text. It depends on the text alone.
pub uninterp spec fn url_serialization(s: Seq<char>) -> Option<Seq<char>>;

#[verifier::external_type_specification]
#[verifier::external_body]
pub struct ExParseError(url::ParseError);

/// Relies on `url::Url::parse` (and `From<Url> for String`, which hands out
/// the serialization): `Ok` exactly where the parser accepts the text.
#[verifier::external_body]
fn parse_url(s: &str) -> (r: Result<String, url::ParseError>)
    ensures
        r is Ok <==> url_serialization(s@) is Some,
        r is Ok ==> url_serialization(s@) == Some(r->Ok_0@),
{
    url::Url::parse(s).map(String::from)
}

/// Which service instance a client talks to.
#[derive(Debug, Clone)]
pub enum Env {
    Live,
    Test,
    /// A self-hosted endpoint, given as the raw URL text.
    Dev(String),
}

/// An absolute URL, as the URL parser serialized it, to which endpoint paths
/// are joined.
#[derive(Debug, Clone, PartialEq, Eq)]
pub struct BaseUrl {
    pub href: String,
}

impl BaseUrl {
    pub fn as_str(&self) -> (r: &str)
        ensures
            r@ == self.href@,
    {
        self.href.as_str()
    }
}

pub open spec fn ends_with_slash(s: Seq<char>) -> bool {
    s.len() > 0 && s.last() == '/'
}

/// The text handed to the URL parser for a development endpoint: the raw
/// text, with `/` appended where it does not already end in one.
pub open spec fn normalized(s: Seq<char>) -> Seq<char> {
    if ends_with_slash(s) {
        s
    } else {
        s.push('/')
    }
}

/// `c` is the lower-case ASCII letter or symbol `w`, in either case.
pub open spec fn same_letter(c: char, w: char) -> bool {
    c == w || ('A' <= c && c <= 'Z' && c as u32 + 32 == w as u32)
}

/// `s` spells the lower-case word `w`, ignoring ASCII case.
pub open spec fn spells(s: Seq<char>, w: Seq<char>) -> bool {
    s.len() == w.len() && forall|i: int| 0 <= i < s.len() ==> same_letter(#[trigger] s[i], w[i])
}

pub open spec fn live_word() -> Seq<char> {
    seq!['l', 'i', 'v', 'e']
}

pub open spec fn test_word() -> Seq<char> {
    seq!['t', 'e', 's', 't']
}

/// The environment that a configuration string selects: the words `live`
/// and `test` in any case, and otherwise a development URL.
pub open spec fn env_of(s: String) -> Env {
    if spells(s@, live_word()) {
        Env::Live
    } else if spells(s@, test_word()) {
        Env::Test
    } else {
        Env::Dev(s)
    }
}

fn spells_word(s: &str, w: &[char]) -> (r: bool)
    ensures
        r == spells(s@, w@),
{
    let n = s.unicode_len();
    if n != w.len() {
        return false;
    }
    let mut i: usize = 0;
    while i < n
        invariant
            n == s@.len(),
            n == w@.len(),
            i <= n,
            forall|j: int| 0 <= j < i ==> same_letter(#[trigger] s@[j], w@[j]),
        decreases n - i,
    {
        let c = s.get_char(i);
        let d = w[i];
        let same = c == d || ('A' <= c && c <= 'Z' && c as u32 + 32 == d as u32);
        if !same {
            return false;
        }
        i = i + 1;
    }
    true
}

impl From<String> for Env {
    fn from(s: String) -> (r: Env)
        ensures
            r == env_of(s),
    {
        let live: [char; 4] = ['l', 'i', 'v', 'e'];
        let test: [char; 4] = ['t', 'e', 's', 't'];
        assert(live@ == live_word());
        assert(test@ == test_word());
        if spells_word(s.as_str(), &live) {
            Env::Live
        } else if spells_word(s.as_str(), &test) {
            Env::Test
        } else {
            Env::Dev(s)
        }
    }
}

impl vstd::std_specs::convert::FromSpecImpl<String> for Env {
    open spec fn obeys_from_spec() -> bool {
        true
    }

    open spec fn from_spec(s: String) -> Env {
        env_of(s)
    }
}

impl Env {
    /// Resolves the environment to its base URL. Live and Test give their
    /// fixed endpoints; a development URL is normalized to end in `/`, so
    /// that endpoint paths join below it, and then parsed.
    pub fn base_url(self) -> (r: Result<BaseUrl, url::ParseError>)
        ensures
            self is Live ==> r is Ok && r->Ok_0.href@ == LIVE_URL@,
            self is Test ==> r is Ok && r->Ok_0.href@ == TEST_URL@,
            self is Dev ==> (r is Ok <==> url_serialization(normalized(self->Dev_0@)) is Some),
            self is Dev && r is Ok ==> url_serialization(normalized(self->Dev_0@)) == Some(
                r->Ok_0.href@,
            ),
    {
        match self {
            Env::Live => Ok(BaseUrl { href: String::from_str(LIVE_URL) }),
            Env::Test => Ok(BaseUrl { href: String::from_str(TEST_URL) }),
            Env::Dev(url) => {
                let n = url.as_str().unicode_len();
                let text = if n > 0 && url.as_str().get_char(n - 1) == '/' {
                    url
                } else {
                    let t = url.concat("/");
                    proof {
                        reveal_strlit("/");
                    }
                    t
                };
                assert(text@ =~= normalized(self->Dev_0@));
                match parse_url(text.as_str()) {
                    Ok(href) => Ok(BaseUrl { href }),
                    Err(e) => Err(e),
                }
            }
        }
    }
}

/// A development URL without a trailing `/` resolves exactly as the same
/// URL with one: the parser is handed the same text, so both succeed or
/// both fail, and on success give the same base URL.
pub proof fn lemma_dev_trailing_slash(u: Seq<char>)
    requires
        !ends_with_slash(u),
    ensures
        normalized(u) == normalized(u.push('/')),
        url_serialization(normalized(u)) == url_serialization(normalized(u.push('/'))),
{
}

} // verus!
