//! Authentication sessions: cookies, tokens, expiry, and the session store.
use vstd::prelude::*;
use vstd::string::StringSliceAdditionalSpecFns;
use crate::strmap::StrMap;
use crate::text::{push_str, str_eq, string_of};

verus! {

/// Reads the wall clock: whole seconds since the Unix epoch through std's
/// `SystemTime::now().duration_since(UNIX_EPOCH)`, 0 when the clock is set before
/// the epoch. Nothing is claimed of the value: it depends on the time.
#[verifier::external_body]
pub(crate) fn unix_now_secs() -> (r: u64) {
    std::time::SystemTime::now()
        .duration_since(std::time::UNIX_EPOCH)
        .unwrap_or(std::time::Duration::from_secs(0))
        .as_secs()
}

/// Session data containing authentication tokens and cookies.
#[derive(Debug, Clone)]
pub struct SessionData {
    /// HTTP cookies (name -> value)
    pub cookies: StrMap<String>,
    /// Authentication tokens (type -> token)
    pub tokens: StrMap<String>,
    /// Session expiration time (Unix timestamp)
    pub expires_at: Option<u64>,
    /// Session metadata
    pub metadata: StrMap<String>,
}

/// A session expires at `expires_at` (inclusive); one without expiry never does.
pub open spec fn expired_at(expires_at: Option<u64>, now: u64) -> bool {
    match expires_at {
        Some(e) => now >= e,
        None => false,
    }
}

/// The expiry that a session with expiry `prev` gets when it is set to end
/// `duration_secs` seconds after `now`: that instant, or `prev` where the instant
/// does not fit in a `u64`.
pub open spec fn expiry_after(prev: Option<u64>, now: u64, duration_secs: u64) -> Option<u64> {
    if now + duration_secs <= u64::MAX {
        Some((now + duration_secs) as u64)
    } else {
        prev
    }
}

impl SessionData {
    /// Create a new empty session.
    pub fn new() -> (r: Self)
        ensures
            r.cookies@ == Map::<Seq<char>, String>::empty(),
            r.tokens@ == Map::<Seq<char>, String>::empty(),
            r.metadata@ == Map::<Seq<char>, String>::empty(),
            r.expires_at is None,
    {
        SessionData {
            cookies: StrMap::new(),
            tokens: StrMap::new(),
            expires_at: None,
            metadata: StrMap::new(),
        }
    }

    /// Whether the session has expired at time `now` (Unix seconds).
    pub fn is_expired_at(&self, now: u64) -> (r: bool)
        ensures
            r == expired_at(self.expires_at, now),
    {
        match self.expires_at {
            Some(e) => now >= e,
            None => false,
        }
    }

    /// Check if the session is expired, by the wall clock.
    pub fn is_expired(&self) -> (r: bool)
        ensures
            exists|now: u64| r == #[trigger] expired_at(self.expires_at, now),
            self.expires_at is None ==> !r,
            self.expires_at == Some(0u64) ==> r,
    {
        let now = unix_now_secs();
        let r = self.is_expired_at(now);
        assert(r == expired_at(self.expires_at, now));
        r
    }

    /// Make the session expire `duration_secs` seconds after `now`.
    pub fn set_expiration_at(&mut self, now: u64, duration_secs: u64)
        requires
            now + duration_secs <= u64::MAX,
        ensures
            final(self).expires_at == Some((now + duration_secs) as u64),
            final(self).cookies@ == old(self).cookies@,
            final(self).tokens@ == old(self).tokens@,
            final(self).metadata@ == old(self).metadata@,
    {
        self.expires_at = Some(now + duration_secs);
    }

    /// Set the expiration time `duration_secs` seconds from now. Where that instant
    /// does not fit in a `u64` the session is left unchanged.
    pub fn set_expiration(&mut self, duration_secs: u64)
        ensures
            exists|now: u64| final(self).expires_at == #[trigger] expiry_after(old(self).expires_at, now, duration_secs),
            final(self).cookies@ == old(self).cookies@,
            final(self).tokens@ == old(self).tokens@,
            final(self).metadata@ == old(self).metadata@,
    {
        let now = unix_now_secs();
        if now <= u64::MAX - duration_secs {
            self.set_expiration_at(now, duration_secs);
        }
        assert(self.expires_at == expiry_after(old(self).expires_at, now, duration_secs));
    }

    /// Add a bearer token.
    pub fn with_bearer_token(self, token: &str) -> (r: Self)
        ensures
            r.tokens@.contains_key(seq!['b', 'e', 'a', 'r', 'e', 'r']),
            r.tokens@[seq!['b', 'e', 'a', 'r', 'e', 'r']]@ == token@,
            r.tokens@.remove(seq!['b', 'e', 'a', 'r', 'e', 'r']) == self.tokens@.remove(
                seq!['b', 'e', 'a', 'r', 'e', 'r'],
            ),
            r.cookies@ == self.cookies@,
            r.metadata@ == self.metadata@,
            r.expires_at == self.expires_at,
    {
        let mut s = self;
        let key = string_of(&['b', 'e', 'a', 'r', 'e', 'r']);
        assert(key@ =~= seq!['b', 'e', 'a', 'r', 'e', 'r']);
        s.tokens.insert(key, token.to_owned());
        proof {
            assert(s.tokens@.remove(seq!['b', 'e', 'a', 'r', 'e', 'r']) =~= self.tokens@.remove(
                seq!['b', 'e', 'a', 'r', 'e', 'r'],
            ));
        }
        s
    }

    /// Add a cookie.
    pub fn with_cookie(self, name: &str, value: &str) -> (r: Self)
        ensures
            r.cookies@.contains_key(name@),
            r.cookies@[name@]@ == value@,
            r.cookies@.remove(name@) == self.cookies@.remove(name@),
            r.tokens@ == self.tokens@,
            r.metadata@ == self.metadata@,
            r.expires_at == self.expires_at,
    {
        let mut s = self;
        s.cookies.insert(name.to_owned(), value.to_owned());
        proof {
            assert(s.cookies@.remove(name@) =~= self.cookies@.remove(name@));
        }
        s
    }

    /// Add metadata.
    pub fn with_metadata(self, key: &str, value: &str) -> (r: Self)
        ensures
            r.metadata@.contains_key(key@),
            r.metadata@[key@]@ == value@,
            r.metadata@.remove(key@) == self.metadata@.remove(key@),
            r.tokens@ == self.tokens@,
            r.cookies@ == self.cookies@,
            r.expires_at == self.expires_at,
    {
        let mut s = self;
        s.metadata.insert(key.to_owned(), value.to_owned());
        proof {
            assert(s.metadata@.remove(key@) =~= self.metadata@.remove(key@));
        }
        s
    }
}

impl Default for SessionData {
    fn default() -> (r: Self)
        ensures
            r.cookies@ == Map::<Seq<char>, String>::empty(),
            r.tokens@ == Map::<Seq<char>, String>::empty(),
            r.metadata@ == Map::<Seq<char>, String>::empty(),
            r.expires_at is None,
    {
        Self::new()
    }
}

/// Form-based login configuration.
#[derive(Debug, Clone)]
pub struct FormLoginConfig {
    /// URL of login page
    pub login_url: String,
    /// CSS selector for username field
    pub username_selector: String,
    /// CSS selector for password field
    pub password_selector: String,
    /// CSS selector for submit button
    pub submit_selector: String,
    /// Optional: selector to wait for after login
    pub success_selector: Option<String>,
    /// Optional: selector indicating login failure
    pub error_selector: Option<String>,
}

/// OAuth2 configuration.
#[derive(Debug, Clone)]
pub struct OAuth2Config {
    /// Provider name (e.g., "github", "google")
    pub provider: String,
    /// Client ID
    pub client_id: String,
    /// Client secret
    pub client_secret: String,
    /// Authorization endpoint
    pub auth_endpoint: String,
    /// Token endpoint
    pub token_endpoint: String,
    /// Redirect URI
    pub redirect_uri: String,
    /// Scopes to request
    pub scopes: Vec<String>,
    /// Optional: selector for consent button
    pub consent_button_selector: Option<String>,
}

/// OAuth2 token response.
#[derive(Debug, Clone)]
pub struct OAuth2TokenResponse {
    pub access_token: String,
    pub token_type: String,
    pub expires_in: Option<u64>,
    pub refresh_token: Option<String>,
    pub scope: Option<String>,
}

/// Authentication manager: active sessions by identifier, and where they persist.
#[derive(Debug)]
pub struct AuthenticationManager {
    /// Active sessions by identifier
    sessions: StrMap<SessionData>,
    /// Session storage path (for persistence)
    storage_path: Option<String>,
}

/// Law: a stored session is read back as stored, a removed one is gone, and
/// other sessions are untouched by either.
pub proof fn law_session_store_get_remove(
    before: Map<Seq<char>, SessionData>,
    id: Seq<char>,
    session: SessionData,
    other: Seq<char>,
)
    ensures
        before.insert(id, session).contains_key(id),
        before.insert(id, session)[id] == session,
        !before.remove(id).contains_key(id),
        other != id ==> before.insert(id, session).contains_key(other) == before.contains_key(other)
            && before.remove(id).contains_key(other) == before.contains_key(other),
        other != id && before.contains_key(other) ==> before.insert(id, session)[other] == before[other]
            && before.remove(id)[other] == before[other],
{
}

impl AuthenticationManager {
    /// The sessions by identifier.
    pub closed spec fn sessions(&self) -> Map<Seq<char>, SessionData> {
        self.sessions@
    }

    /// Where the sessions persist, if anywhere.
    pub closed spec fn path(&self) -> Option<String> {
        self.storage_path
    }

    /// Create a new authentication manager.
    pub fn new() -> (r: Self)
        ensures
            r.sessions() == Map::<Seq<char>, SessionData>::empty(),
            r.path() is None,
    {
        AuthenticationManager { sessions: StrMap::new(), storage_path: None }
    }

    /// Create a manager whose sessions persist at `storage_path`.
    pub fn with_persistence(storage_path: String) -> (r: Self)
        ensures
            r.sessions() == Map::<Seq<char>, SessionData>::empty(),
            r.path() == Some(storage_path),
    {
        AuthenticationManager { sessions: StrMap::new(), storage_path: Some(storage_path) }
    }

    /// Where the sessions persist, if anywhere.
    pub fn storage_path(&self) -> (r: Option<&String>)
        ensures
            match self.path() {
                Some(p) => r == Some(&p),
                None => r is None,
            },
    {
        match &self.storage_path {
            Some(p) => Some(p),
            None => None,
        }
    }

    /// Store a session under `id`, replacing any former one.
    pub fn store_session(&mut self, id: &str, session: SessionData)
        ensures
            final(self).sessions() == old(self).sessions().insert(id@, session),
            final(self).path() == old(self).path(),
    {
        self.sessions.insert(id.to_owned(), session);
    }

    /// The session stored under `id`.
    pub fn get_session(&self, id: &str) -> (r: Option<&SessionData>)
        ensures
            match r {
                Some(s) => self.sessions().contains_key(id@) && *s == self.sessions()[id@],
                None => !self.sessions().contains_key(id@),
            },
    {
        self.sessions.get(id)
    }

    /// Remove the session stored under `id`, handing it back.
    pub fn remove_session(&mut self, id: &str) -> (r: Option<SessionData>)
        ensures
            final(self).sessions() == old(self).sessions().remove(id@),
            final(self).path() == old(self).path(),
            match r {
                Some(s) => old(self).sessions().contains_key(id@) && s == old(self).sessions()[id@],
                None => !old(self).sessions().contains_key(id@),
            },
    {
        self.sessions.remove(id)
    }

    /// Identifiers of all stored sessions.
    pub fn session_ids(&self) -> (r: Vec<String>)
        ensures
            r@.len() == self.sessions().len(),
            forall|i: int| 0 <= i < r@.len() ==> self.sessions().contains_key(#[trigger] r@[i]@),
            forall|k: Seq<char>|
                self.sessions().contains_key(k) ==> exists|i: int|
                    0 <= i < r@.len() && #[trigger] r@[i]@ == k,
    {
        self.sessions.keys()
    }

    /// The `Authorization` header value for the session stored under `session_id`:
    /// `Err` when there is no such session, `Ok(None)` when it holds no access token.
    pub fn bearer_header_value(&self, session_id: &str) -> (r: Result<Option<String>, &'static str>)
        ensures
            !self.sessions().contains_key(session_id@) ==> r == Err::<Option<String>, &'static str>(
                "Session not found",
            ),
            self.sessions().contains_key(session_id@) ==> {
                let toks = self.sessions()[session_id@].tokens@;
                let key = seq!['a', 'c', 'c', 'e', 's', 's', '_', 't', 'o', 'k', 'e', 'n'];
                if toks.contains_key(key) {
                    r matches Ok(Some(h)) && h@ == seq!['B', 'e', 'a', 'r', 'e', 'r', ' '] + toks[key]@
                } else {
                    r matches Ok(None)
                }
            },
    {
        match self.get_session(session_id) {
            None => Err("Session not found"),
            Some(session) => {
                let key = string_of(&['a', 'c', 'c', 'e', 's', 's', '_', 't', 'o', 'k', 'e', 'n']);
                assert(key@ =~= seq!['a', 'c', 'c', 'e', 's', 's', '_', 't', 'o', 'k', 'e', 'n']);
                match session.tokens.get(key.as_str()) {
                    Some(tok) => {
                        let mut h = string_of(&['B', 'e', 'a', 'r', 'e', 'r', ' ']);
                        push_str(&mut h, tok.as_str());
                        assert(h@ =~= seq!['B', 'e', 'a', 'r', 'e', 'r', ' '] + tok@);
                        Ok(Some(h))
                    },
                    None => Ok(None),
                }
            },
        }
    }
}

/// Whether urlencoding leaves byte `b` as it is: ASCII letters, digits and `-_.~`.
pub open spec fn url_safe_byte(b: u8) -> bool {
    (48 <= b <= 57) || (65 <= b <= 90) || (97 <= b <= 122) || b == 45 || b == 46 || b == 95
        || b == 126
}

/// Upper-case hexadecimal digit of `d` (below 16).
pub open spec fn hex_digit(d: u8) -> char {
    if d < 10 {
        (48 + d) as char
    } else {
        (55 + d) as char
    }
}

/// `urlencoding::encode` on UTF-8 bytes: unsafe bytes become `%` and two upper-case
/// hex digits.
pub open spec fn percent_encoded(bs: Seq<u8>) -> Seq<char>
    decreases bs.len(),
{
    if bs.len() == 0 {
        Seq::empty()
    } else {
        let b = bs.last();
        percent_encoded(bs.drop_last()) + if url_safe_byte(b) {
            seq![b as char]
        } else {
            seq!['%', hex_digit(b / 16), hex_digit(b % 16)]
        }
    }
}

/// Calls `urlencoding::encode`. Claimed: every byte of the UTF-8 encoding of `s` is
/// kept when it is an ASCII letter, digit or one of `-_.~`, and is written as `%`
/// and two upper-case hex digits otherwise (as the crate's `encode_into` does).
#[verifier::external_body]
fn url_encode(s: &str) -> (r: String)
    ensures
        r@ == percent_encoded(s.spec_bytes()),
{
    urlencoding::encode(s).into_owned()
}

/// Name for the decoded query pairs of a URL as `url::Url::parse` and
/// `Url::query_pairs` give them; `None` when the URL does not parse.
pub uninterp spec fn query_pairs_of(url: Seq<char>) -> Option<Seq<(Seq<char>, Seq<char>)>>;

/// Parses `url` with `url::Url::parse` and lists its decoded query pairs in order.
/// Claimed: the result is `query_pairs_of` of the URL's characters.
#[verifier::external_body]
fn url_query_pairs(url: &str) -> (r: Option<Vec<(String, String)>>)
    ensures
        match r {
            None => query_pairs_of(url@) is None,
            Some(v) => query_pairs_of(url@) matches Some(ps) && ps.len() == v@.len() && forall|i: int|
                0 <= i < ps.len() ==> #[trigger] ps[i] == (v@[i].0@, v@[i].1@),
        },
{
    let parsed = url::Url::parse(url).ok()?;
    Some(parsed.query_pairs().map(|(k, v)| (k.into_owned(), v.into_owned())).collect())
}

/// The value of the first pair whose key is `param`.
pub open spec fn first_value(ps: Seq<(Seq<char>, Seq<char>)>, param: Seq<char>) -> Option<Seq<char>>
    decreases ps.len(),
{
    if ps.len() == 0 {
        None
    } else if ps[0].0 == param {
        Some(ps[0].1)
    } else {
        first_value(ps.drop_first(), param)
    }
}

/// The words of `v` separated by single spaces.
pub open spec fn space_joined(v: Seq<Seq<char>>) -> Seq<char>
    decreases v.len(),
{
    if v.len() == 0 {
        Seq::empty()
    } else if v.len() == 1 {
        v[0]
    } else {
        space_joined(v.drop_last()) + seq![' '] + v.last()
    }
}

/// The authorization URL of the OAuth2 code flow.
pub open spec fn authorization_url_of(c: OAuth2Config) -> Seq<char> {
    c.auth_endpoint@ + "?client_id="@ + percent_encoded(vstd::utf8::encode_utf8(c.client_id@))
        + "&redirect_uri="@ + percent_encoded(vstd::utf8::encode_utf8(c.redirect_uri@))
        + "&response_type=code&scope="@ + percent_encoded(
        vstd::utf8::encode_utf8(space_joined(c.scopes@.map_values(|s: String| s@))),
    )
}

/// The scopes of `config`, separated by single spaces.
pub fn join_scopes(scopes: &Vec<String>) -> (r: String)
    ensures
        r@ == space_joined(scopes@.map_values(|s: String| s@)),
{
    let ghost words = scopes@.map_values(|s: String| s@);
    let mut r = String::new();
    let mut i: usize = 0;
    while i < scopes.len()
        invariant
            i <= scopes@.len(),
            words == scopes@.map_values(|s: String| s@),
            r@ == space_joined(words.take(i as int)),
        decreases scopes.len() - i,
    {
        assert(words.take(i + 1).drop_last() =~= words.take(i as int));
        if i > 0 {
            r.push(' ');
        } else {
            assert(r@ =~= Seq::<char>::empty());
        }
        push_str(&mut r, scopes[i].as_str());
        proof {
            if i == 0 {
                assert(r@ =~= words.take(1)[0]);
            } else {
                assert(r@ =~= space_joined(words.take(i as int)) + seq![' '] + words[i as int]);
            }
        }
        i = i + 1;
    }
    assert(words.take(scopes.len() as int) =~= words);
    r
}

/// Build the authorization URL that starts the OAuth2 code flow.
pub fn authorization_url(config: &OAuth2Config) -> (r: String)
    ensures
        r@ == authorization_url_of(*config),
{
    let scopes = join_scopes(&config.scopes);
    let mut u = config.auth_endpoint.clone();
    push_str(&mut u, "?client_id=");
    push_str(&mut u, url_encode(config.client_id.as_str()).as_str());
    push_str(&mut u, "&redirect_uri=");
    push_str(&mut u, url_encode(config.redirect_uri.as_str()).as_str());
    push_str(&mut u, "&response_type=code&scope=");
    push_str(&mut u, url_encode(scopes.as_str()).as_str());
    u
}

/// Extract a query parameter from a URL: the decoded value of the first pair whose
/// key is `param`, `None` when there is none or the URL does not parse.
pub fn extract_url_param(url: &str, param: &str) -> (r: Option<String>)
    ensures
        match query_pairs_of(url@) {
            None => r is None,
            Some(ps) => match first_value(ps, param@) {
                None => r is None,
                Some(v) => r matches Some(s) && s@ == v,
            },
        },
{
    let pairs = match url_query_pairs(url) {
        None => return None,
        Some(p) => p,
    };
    let ghost ps = query_pairs_of(url@)->0;
    assert(ps.skip(0) =~= ps);
    let mut i: usize = 0;
    while i < pairs.len()
        invariant
            i <= pairs@.len(),
            query_pairs_of(url@) == Some(ps),
            ps.len() == pairs@.len(),
            forall|j: int| 0 <= j < ps.len() ==> #[trigger] ps[j] == (pairs@[j].0@, pairs@[j].1@),
            first_value(ps, param@) == first_value(ps.skip(i as int), param@),
        decreases pairs.len() - i,
    {
        assert(ps.skip(i as int).drop_first() =~= ps.skip(i + 1));
        assert(ps.skip(i as int)[0] == ps[i as int]);
        if str_eq(pairs[i].0.as_str(), param) {
            assert(ps[i as int].0 == param@);
            assert(ps.skip(i as int)[0] == ps[i as int]);
            assert(first_value(ps.skip(i as int), param@) == Some(ps[i as int].1));
            return Some(pairs[i].1.clone());
        }
        i = i + 1;
    }
    assert(ps.skip(pairs.len() as int).len() == 0);
    None
}

/// The session an OAuth2 token response opens: its access token, token type and
/// refresh token, its expiry, and the provider and scopes as metadata.
pub fn oauth2_session(token: OAuth2TokenResponse, config: &OAuth2Config) -> (r: SessionData)
    ensures
        r.tokens@.contains_key("access_token"@),
        r.tokens@["access_token"@] == token.access_token,
        r.tokens@.contains_key("token_type"@),
        r.tokens@["token_type"@] == token.token_type,
        r.tokens@.contains_key("refresh_token"@) <==> token.refresh_token is Some,
        token.refresh_token matches Some(t) ==> r.tokens@["refresh_token"@] == t,
        r.tokens@.dom().len() == if token.refresh_token is Some { 3nat } else { 2nat },
        r.cookies@ == Map::<Seq<char>, String>::empty(),
        r.metadata@.contains_key("provider"@),
        r.metadata@["provider"@]@ == config.provider@,
        r.metadata@.contains_key("scopes"@),
        r.metadata@["scopes"@]@ == space_joined(config.scopes@.map_values(|s: String| s@)),
        token.expires_in is None ==> r.expires_at is None,
{
    let scopes = join_scopes(&config.scopes);
    let mut session = SessionData::new();
    proof {
        reveal_strlit("access_token");
        reveal_strlit("token_type");
        reveal_strlit("refresh_token");
        reveal_strlit("provider");
        reveal_strlit("scopes");
        assert("access_token"@[0] != "token_type"@[0]);
        assert("access_token"@[0] != "refresh_token"@[0]);
        assert("token_type"@[0] != "refresh_token"@[0]);
        assert("provider"@[0] != "scopes"@[0]);
    }
    session.tokens.insert("access_token".to_owned(), token.access_token);
    session.tokens.insert("token_type".to_owned(), token.token_type);
    if let Some(refresh) = token.refresh_token {
        session.tokens.insert("refresh_token".to_owned(), refresh);
    }
    if let Some(expires_in) = token.expires_in {
        session.set_expiration(expires_in);
    }
    session.metadata.insert("provider".to_owned(), config.provider.clone());
    session.metadata.insert("scopes".to_owned(), scopes);
    proof {
        let t = session.tokens@;
        if token.refresh_token is Some {
            assert(t.dom() =~= set!["access_token"@, "token_type"@, "refresh_token"@]);
        } else {
            assert(t.dom() =~= set!["access_token"@, "token_type"@]);
        }
    }
    session
}

/// The session a form login yields: the page's cookies, and the login URL and user
/// name as metadata.
pub fn form_login_session(cookies: Vec<(String, String)>, login_url: &str, username: &str) -> (r: SessionData)
    ensures
        forall|i: int| 0 <= i < cookies@.len() ==> r.cookies@.contains_key(#[trigger] cookies@[i].0@),
        forall|k: Seq<char>| #[trigger] r.cookies@.contains_key(k) ==> exists|i: int|
            0 <= i < cookies@.len() && cookies@[i].0@ == k && r.cookies@[k] == cookies@[i].1 && forall|j: int|
                i < j < cookies@.len() ==> cookies@[j].0@ != k,
        r.tokens@ == Map::<Seq<char>, String>::empty(),
        r.metadata@.contains_key("login_url"@),
        r.metadata@["login_url"@]@ == login_url@,
        r.metadata@.contains_key("username"@),
        r.metadata@["username"@]@ == username@,
        r.expires_at is None,
{
    let mut session = SessionData::new();
    let mut i: usize = 0;
    while i < cookies.len()
        invariant
            i <= cookies@.len(),
            session.tokens@ == Map::<Seq<char>, String>::empty(),
            session.expires_at is None,
            session.metadata@ == Map::<Seq<char>, String>::empty(),
            forall|m: int| 0 <= m < i ==> session.cookies@.contains_key(#[trigger] cookies@[m].0@),
            forall|k: Seq<char>| #[trigger] session.cookies@.contains_key(k) ==> exists|m: int|
                0 <= m < i && cookies@[m].0@ == k && session.cookies@[k] == cookies@[m].1 && forall|j: int|
                    m < j < i ==> cookies@[j].0@ != k,
        decreases cookies.len() - i,
    {
        let name = cookies[i].0.clone();
        let value = cookies[i].1.clone();
        let ghost before = session.cookies@;
        session.cookies.insert(name, value);
        proof {
            assert forall|k: Seq<char>| #[trigger] session.cookies@.contains_key(k) implies exists|m: int|
                0 <= m < i + 1 && cookies@[m].0@ == k && session.cookies@[k] == cookies@[m].1 && forall|j: int|
                    m < j < i + 1 ==> cookies@[j].0@ != k by {
                if k == cookies@[i as int].0@ {
                    assert(cookies@[i as int].0@ == k && session.cookies@[k] == cookies@[i as int].1);
                } else {
                    assert(before.contains_key(k));
                    let m = choose|m: int|
                        0 <= m < i && cookies@[m].0@ == k && before[k] == cookies@[m].1 && forall|j: int|
                            m < j < i ==> cookies@[j].0@ != k;
                    assert(session.cookies@[k] == before[k]);
                    assert(forall|j: int| m < j < i + 1 ==> cookies@[j].0@ != k);
                }
            }
        }
        i = i + 1;
    }
    proof {
        reveal_strlit("login_url");
        reveal_strlit("username");
        assert("login_url"@[0] != "username"@[0]);
    }
    session.metadata.insert("login_url".to_owned(), login_url.to_owned());
    session.metadata.insert("username".to_owned(), username.to_owned());
    session
}

impl Default for AuthenticationManager {
    fn default() -> (r: Self)
        ensures
            r.sessions() == Map::<Seq<char>, SessionData>::empty(),
            r.path() is None,
    {
        Self::new()
    }
}

} // verus!
