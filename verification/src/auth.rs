//! JWT claims, bearer-token extraction and role checks.
use vstd::prelude::*;
use crate::text::{chars_of, has_prefix, matches_at_exec, string_of, trim, trim_exec};

verus! {

/// Seconds in a day: the default lifetime of a token.
pub const DAY_SECS: i64 = 86_400;

/// Largest whole number of seconds a `chrono::Duration` can hold.
pub const MAX_DURATION_SECS: i64 = 9_223_372_036_854_775;

/// Largest timestamp that the claims take from the clock: the end of the range of
/// dates of `chrono::DateTime` (bounded by `i32` days).
pub const MAX_CLOCK_SECS: i64 = 185_542_587_187_200;

/// The wall clock in whole seconds since the Unix epoch, kept within
/// `0..=MAX_CLOCK_SECS` (a clock set before the epoch reads 0). Which value it is
/// depends on the time.
pub(crate) fn utc_now_timestamp() -> (r: i64)
    ensures
        0 <= r <= MAX_CLOCK_SECS,
{
    let s = crate::auth_manager::unix_now_secs();
    if s > 185_542_587_187_200u64 {
        MAX_CLOCK_SECS
    } else {
        s as i64
    }
}

/// JWT claims.
#[derive(Debug, Clone)]
pub struct Claims {
    /// Subject (username or user ID)
    pub sub: String,
    /// Expiration time (Unix timestamp)
    pub exp: i64,
    /// Issued at (Unix timestamp)
    pub iat: i64,
    /// Optional role
    pub role: Option<String>,
}

impl Claims {
    /// Claims issued at `now` that expire `duration_secs` later.
    pub fn issued_at(subject: String, role: Option<String>, now: i64, duration_secs: i64) -> (r: Self)
        requires
            0 <= now <= MAX_CLOCK_SECS,
            -MAX_DURATION_SECS <= duration_secs <= MAX_DURATION_SECS,
        ensures
            r.sub == subject,
            r.role == role,
            r.iat == now,
            r.exp == now + duration_secs,
    {
        Claims { sub: subject, exp: now + duration_secs, iat: now, role }
    }

    /// Create new claims that expire 24 hours from now.
    pub fn new(subject: String, role: Option<String>) -> (r: Self)
        ensures
            r.sub == subject,
            r.role == role,
            r.exp == r.iat + DAY_SECS,
            0 <= r.iat,
    {
        let now = utc_now_timestamp();
        Self::issued_at(subject, role, now, DAY_SECS)
    }

    /// Create new claims that expire `duration_secs` seconds from now.
    pub fn with_expiration(subject: String, role: Option<String>, duration_secs: i64) -> (r: Self)
        requires
            -MAX_DURATION_SECS <= duration_secs <= MAX_DURATION_SECS,
        ensures
            r.sub == subject,
            r.role == role,
            r.exp == r.iat + duration_secs,
            0 <= r.iat,
    {
        let now = utc_now_timestamp();
        Self::issued_at(subject, role, now, duration_secs)
    }
}

/// An authenticated caller, as the request extractor hands it to handlers.
#[derive(Debug, Clone)]
pub struct AuthenticatedUser(pub Claims);

/// Authentication error types.
#[derive(Debug, Clone, Copy, PartialEq, Eq, Structural)]
pub enum AuthError {
    MissingToken,
    InvalidToken,
}

impl AuthError {
    /// The HTTP status and message this error is answered with.
    pub fn response_parts(&self) -> (r: (u16, &'static str))
        ensures
            r.0 == 401,
            r.1 == (match self {
                AuthError::MissingToken => "Missing or invalid Authorization header",
                AuthError::InvalidToken => "Invalid or expired token",
            }),
    {
        match self {
            AuthError::MissingToken => (401, "Missing or invalid Authorization header"),
            AuthError::InvalidToken => (401, "Invalid or expired token"),
        }
    }
}

/// Whether JWT authentication is on, and with which secret.
#[derive(Debug, Clone)]
pub enum JwtMode {
    Disabled,
    Enabled(String),
}

/// The authentication mode that the `JWT_SECRET` setting selects: a secret that
/// is absent or only whitespace turns authentication off; a present one must be at
/// least 32 bytes long.
pub fn jwt_mode_from_secret(secret: Option<&str>) -> (r: Result<JwtMode, &'static str>)
    ensures
        match secret {
            None => r matches Ok(JwtMode::Disabled),
            Some(s) => if trim(s@).len() == 0 {
                r matches Ok(JwtMode::Disabled)
            } else if s.len() < 32 {
                r == Err::<JwtMode, &'static str>("JWT_SECRET must be at least 32 characters long")
            } else {
                r matches Ok(JwtMode::Enabled(k)) && k@ == s@
            },
        },
{
    match secret {
        None => Ok(JwtMode::Disabled),
        Some(s) => {
            let v = chars_of(s);
            let t = trim_exec(&v);
            if t.len() == 0 {
                Ok(JwtMode::Disabled)
            } else if s.len() < 32 {
                Err("JWT_SECRET must be at least 32 characters long")
            } else {
                Ok(JwtMode::Enabled(s.to_owned()))
            }
        },
    }
}

/// `Bearer ` (with its trailing space).
pub open spec fn bearer_prefix() -> Seq<char> {
    seq!['B', 'e', 'a', 'r', 'e', 'r', ' ']
}

/// The token an `Authorization` header value carries.
pub open spec fn token_of_header(h: Seq<char>) -> Option<Seq<char>> {
    if has_prefix(h, bearer_prefix()) {
        Some(trim(h.skip(7)))
    } else {
        None
    }
}

/// Extract the bearer token from an `Authorization` header: the text after
/// `Bearer `, trimmed.
pub fn extract_token_from_header(auth_header: Option<&str>) -> (r: Option<String>)
    ensures
        match auth_header {
            None => r is None,
            Some(h) => match token_of_header(h@) {
                None => r is None,
                Some(t) => r matches Some(s) && s@ == t,
            },
        },
{
    match auth_header {
        None => None,
        Some(h) => {
            let v = chars_of(h);
            let p = vec!['B', 'e', 'a', 'r', 'e', 'r', ' '];
            assert(p@ =~= bearer_prefix());
            if !matches_at_exec(&v, &p, 0) {
                return None;
            }
            let mut rest: Vec<char> = Vec::new();
            let mut k: usize = 7;
            while k < v.len()
                invariant
                    7 <= k <= v.len(),
                    rest@ == v@.subrange(7, k as int),
                decreases v.len() - k,
            {
                rest.push(v[k]);
                assert(v@.subrange(7, k + 1) =~= v@.subrange(7, k as int).push(v@[k as int]));
                k = k + 1;
            }
            assert(rest@ =~= v@.skip(7));
            let t = trim_exec(&rest);
            Some(string_of(t.as_slice()))
        },
    }
}

/// Role check: with authentication off every role is granted; otherwise the claims
/// must carry exactly `required_role`.
pub fn require_role(claims: &Claims, required_role: &str, jwt_enabled: bool) -> (r: Result<(), AuthError>)
    ensures
        r is Ok <==> (!jwt_enabled || (claims.role matches Some(role) && role@ == required_role@)),
        r is Err ==> r == Err::<(), AuthError>(AuthError::InvalidToken),
{
    if !jwt_enabled {
        return Ok(());
    }
    match &claims.role {
        Some(role) => {
            let want = required_role.to_owned();
            if *role == want {
                Ok(())
            } else {
                Err(AuthError::InvalidToken)
            }
        },
        None => Err(AuthError::InvalidToken),
    }
}

/// The claims handed to handlers while authentication is off.
pub fn anonymous_claims(now: i64) -> (r: Claims)
    ensures
        r.sub@ == seq!['a', 'n', 'o', 'n', 'y', 'm', 'o', 'u', 's'],
        r.exp == now,
        r.iat == now,
        r.role is None,
{
    let sub = string_of(&['a', 'n', 'o', 'n', 'y', 'm', 'o', 'u', 's']);
    assert(sub@ =~= seq!['a', 'n', 'o', 'n', 'y', 'm', 'o', 'u', 's']);
    Claims { sub, exp: now, iat: now, role: None }
}

} // verus!
