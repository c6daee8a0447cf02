//! The HTTP API's request and response shapes, rate limiting and client-address logic.
use vstd::prelude::*;
use crate::strmap::StrMap;
use crate::text::{
    chars_of, find, find_from_exec, has_prefix, lemma_find_from, matches_at_exec, string_of,
    to_upper, trim, trim_exec, uppercased,
};

verus! {

/// Request to parse HTML.
#[derive(Debug, Clone)]
pub struct ParseRequest {
    pub html: String,
}

/// Request for LangGraph workflow execution.
#[derive(Debug, Clone)]
pub struct LangGraphRequest {
    pub graph_definition: String,
    pub input: String,
}

/// Response with parsed data.
#[derive(Debug, Clone)]
pub struct ParseResponse {
    pub title: Option<String>,
    pub entities: Vec<String>,
}

/// Query request.
#[derive(Debug, Clone)]
pub struct QueryRequest {
    pub query: String,
}

/// Query response.
#[derive(Debug, Clone)]
pub struct QueryResponse {
    pub results: Vec<String>,
}

/// Response listing KG items.
#[derive(Debug, Clone)]
pub struct GraphItemsResponse {
    pub items: Vec<String>,
}

/// Browse request.
#[derive(Debug, Clone)]
pub struct BrowseRequest {
    pub url: String,
    pub query: String,
}

/// Browse and insert into KG request.
#[derive(Debug, Clone)]
pub struct BrowseKGRequest {
    pub url: String,
}

/// Token generation request.
#[derive(Debug, Clone)]
pub struct TokenRequest {
    pub username: String,
    pub role: Option<String>,
}

/// Token response.
#[derive(Debug, Clone)]
pub struct TokenResponse {
    pub token: String,
    pub expires_in: i64,
}

/// Token revocation request.
#[derive(Debug, Clone)]
pub struct RevokeTokenRequest {
    pub token: String,
}

/// Token revocation response.
#[derive(Debug, Clone)]
pub struct RevokeTokenResponse {
    pub revoked: bool,
    pub message: String,
}

/// Requests allowed per client in one window.
pub const RATE_LIMIT_MAX: u32 = 10;

/// Length of a rate-limit window, in nanoseconds (one minute).
pub const RATE_WINDOW_NANOS: u64 = 60_000_000_000;

/// A point of the monotonic clock (`std::time::Instant`).
#[verifier::external_type_specification]
#[verifier::external_body]
pub struct ExInstant(std::time::Instant);

/// Reads the monotonic clock with `Instant::now`. Nothing is claimed of the value.
#[verifier::external_body]
fn instant_now() -> (r: std::time::Instant) {
    std::time::Instant::now()
}

/// The nanoseconds that have passed since `origin` on the monotonic clock, with
/// `Instant::elapsed`. Nothing is claimed of the value: it depends on the time.
#[verifier::external_body]
fn nanos_since(origin: &std::time::Instant) -> (r: u64) {
    origin.elapsed().as_nanos() as u64
}

/// Per-client request counters: client -> (requests in the window, window start),
/// the times in nanoseconds of the monotonic clock since the counters were made.
pub struct RateLimits {
    origin: std::time::Instant,
    counters: StrMap<(u32, u64)>,
}

impl View for RateLimits {
    type V = Map<Seq<char>, (u32, u64)>;

    closed spec fn view(&self) -> Map<Seq<char>, (u32, u64)> {
        self.counters@
    }
}

impl RateLimits {
    /// No counters yet; the clock of the counters starts now.
    pub fn new() -> (r: Self)
        ensures
            r@ == Map::<Seq<char>, (u32, u64)>::empty(),
    {
        RateLimits { origin: instant_now(), counters: StrMap::new() }
    }
}

/// Time from `start` to `now`, zero when `now` is earlier.
pub open spec fn elapsed(start: u64, now: u64) -> int {
    if now >= start {
        now - start
    } else {
        0
    }
}

/// One request at `now` from a client whose counter was `entry`: the new counter,
/// and whether the request is allowed. A fresh client starts a window at `now`; a
/// window older than a minute is restarted; otherwise ten requests are allowed.
pub open spec fn rate_step(entry: Option<(u32, u64)>, now: u64) -> ((u32, u64), bool) {
    let (count, start) = match entry {
        Some(e) => e,
        None => (0u32, now),
    };
    if elapsed(start, now) > RATE_WINDOW_NANOS {
        ((1u32, now), true)
    } else if count < RATE_LIMIT_MAX {
        (((count + 1) as u32, start), true)
    } else {
        ((count, start), false)
    }
}

/// Every counter of `m` is at most `RATE_LIMIT_MAX`.
pub open spec fn counters_bounded(m: Map<Seq<char>, (u32, u64)>) -> bool {
    forall|k: Seq<char>| #[trigger] m.contains_key(k) ==> m[k].0 <= RATE_LIMIT_MAX
}

/// Count a request from `ip` made at `now` and say whether it is allowed.
pub fn check_rate_limit_at(rate_limits: &mut RateLimits, ip: &str, now: u64) -> (r: bool)
    ensures
        final(rate_limits)@ == old(rate_limits)@.insert(
            ip@,
            rate_step(old(rate_limits)@.get(ip@), now).0,
        ),
        r == rate_step(old(rate_limits)@.get(ip@), now).1,
{
    let (count, start) = match rate_limits.counters.get(ip) {
        Some(e) => *e,
        None => (0u32, now),
    };
    let elapsed_nanos = if now >= start {
        now - start
    } else {
        0
    };
    let (entry, allowed) = if elapsed_nanos > RATE_WINDOW_NANOS {
        ((1u32, now), true)
    } else if count < RATE_LIMIT_MAX {
        ((count + 1, start), true)
    } else {
        ((count, start), false)
    };
    rate_limits.counters.insert(ip.to_owned(), entry);
    allowed
}

/// Check the rate limit for a client: at most ten requests per minute, measured
/// on the monotonic clock.
pub fn check_rate_limit(rate_limits: &mut RateLimits, ip: &str) -> (r: bool)
    ensures
        exists|now: u64|
            final(rate_limits)@ == old(rate_limits)@.insert(
                ip@,
                #[trigger] rate_step(old(rate_limits)@.get(ip@), now).0,
            ) && r == rate_step(old(rate_limits)@.get(ip@), now).1,
{
    let now = nanos_since(&rate_limits.origin);
    check_rate_limit_at(rate_limits, ip, now)
}

/// Counting a request never takes a counter above `RATE_LIMIT_MAX`.
pub proof fn law_rate_counters_stay_bounded(m: Map<Seq<char>, (u32, u64)>, ip: Seq<char>, now: u64)
    requires
        counters_bounded(m),
    ensures
        counters_bounded(m.insert(ip, rate_step(m.get(ip), now).0)),
{
}

/// A client whose window is still open and already holds `RATE_LIMIT_MAX` requests is
/// refused, and its counter is left as it was.
pub proof fn law_rate_limit_refuses_when_full(count: u32, start: u64, now: u64)
    requires
        count >= RATE_LIMIT_MAX,
        elapsed(start, now) <= RATE_WINDOW_NANOS,
    ensures
        rate_step(Some((count, start)), now) == ((count, start), false),
{
}

/// A client seen for the first time is allowed, and its window starts then.
pub proof fn law_rate_limit_first_request_allowed(now: u64)
    ensures
        rate_step(None, now) == ((1u32, now), true),
{
}

/// Once a window is over a minute old, the next request is allowed and starts a new
/// window.
pub proof fn law_rate_limit_window_resets(count: u32, start: u64, now: u64)
    requires
        elapsed(start, now) > RATE_WINDOW_NANOS,
    ensures
        rate_step(Some((count, start)), now) == ((1u32, now), true),
{
}

/// Within one open window, the `n`-th request from a fresh client (counting from 1)
/// is allowed exactly when `n <= RATE_LIMIT_MAX`.
pub open spec fn counter_after(n: nat, now: u64) -> ((u32, u64), bool)
    decreases n,
{
    if n == 0 {
        ((0u32, now), true)
    } else {
        let prev = counter_after((n - 1) as nat, now);
        if n == 1 {
            rate_step(None, now)
        } else {
            rate_step(Some(prev.0), now)
        }
    }
}

/// Requests made at one instant by a fresh client: the first ten are allowed and
/// every later one is refused.
pub proof fn law_rate_limit_burst(n: nat, now: u64)
    requires
        n >= 1,
    ensures
        counter_after(n, now).1 == (n <= RATE_LIMIT_MAX),
        counter_after(n, now).0 == (if n <= RATE_LIMIT_MAX { (n as u32, now) } else { (
            RATE_LIMIT_MAX,
            now,
        ) }),
    decreases n,
{
    if n > 1 {
        law_rate_limit_burst((n - 1) as nat, now);
    }
}

/// The text of `s` before its first comma (all of it when it has none).
pub open spec fn before_comma(s: Seq<char>) -> Seq<char> {
    match find(s, seq![',']) {
        Some(i) => s.take(i),
        None => s,
    }
}

/// The client address of a request: the first entry of `X-Forwarded-For` (trimmed)
/// when that header is present, else `X-Real-IP`, else the peer address.
pub open spec fn client_ip(forwarded_for: Option<Seq<char>>, real_ip: Option<Seq<char>>, peer: Seq<char>) -> Seq<char> {
    match forwarded_for {
        Some(f) => trim(before_comma(f)),
        None => match real_ip {
            Some(r) => r,
            None => peer,
        },
    }
}

/// Extract the real client IP from the `X-Forwarded-For` and `X-Real-IP` header
/// values (those that are readable text) and the peer address.
pub fn extract_ip(forwarded_for: Option<&str>, real_ip: Option<&str>, peer: &str) -> (r: String)
    ensures
        r@ == client_ip(
            match forwarded_for {
                Some(f) => Some(f@),
                None => None,
            },
            match real_ip {
                Some(x) => Some(x@),
                None => None,
            },
            peer@,
        ),
{
    match forwarded_for {
        Some(f) => {
            let v = chars_of(f);
            let comma = vec![','];
            assert(comma@ =~= seq![',']);
            let end = match find_from_exec(&v, &comma, 0) {
                Some(i) => {
                    proof {
                        lemma_find_from(v@, seq![','], 0);
                    }
                    i
                },
                None => v.len(),
            };
            let mut first: Vec<char> = Vec::new();
            let mut k: usize = 0;
            while k < end
                invariant
                    end <= v.len(),
                    k <= end,
                    first@ == v@.take(k as int),
                decreases end - k,
            {
                first.push(v[k]);
                assert(v@.take(k + 1) =~= v@.take(k as int).push(v@[k as int]));
                k = k + 1;
            }
            assert(first@ =~= before_comma(v@)) by {
                if end == v.len() {
                    assert(v@.take(v.len() as int) =~= v@);
                }
            }
            let t = trim_exec(&first);
            string_of(t.as_slice())
        },
        None => match real_ip {
            Some(x) => x.to_owned(),
            None => peer.to_owned(),
        },
    }
}

/// A query is run as an update when, trimmed and uppercased, it starts with INSERT
/// or DELETE.
pub open spec fn is_update_text(upper_trimmed: Seq<char>) -> bool {
    has_prefix(upper_trimmed, seq!['I', 'N', 'S', 'E', 'R', 'T']) || has_prefix(
        upper_trimmed,
        seq!['D', 'E', 'L', 'E', 'T', 'E'],
    )
}

/// Law: a request whose trimmed, uppercased text starts with `INSERT` or with
/// `DELETE` is run as an update, and one that starts with neither as a query.
pub proof fn law_insert_and_delete_are_updates(query: Seq<char>)
    ensures
        ({
            let u = uppercased(trim(query));
            let starts_insert = u.len() >= 6 && u.take(6) == seq!['I', 'N', 'S', 'E', 'R', 'T'];
            let starts_delete = u.len() >= 6 && u.take(6) == seq!['D', 'E', 'L', 'E', 'T', 'E'];
            &&& starts_insert ==> is_update_text(u)
            &&& starts_delete ==> is_update_text(u)
            &&& !starts_insert && !starts_delete ==> !is_update_text(u)
        }),
{
    let u = uppercased(trim(query));
    if u.len() >= 6 {
        assert(u.take(6) =~= u.subrange(0, 6));
    }
}

/// Whether a SPARQL request is an update (INSERT or DELETE) rather than a query.
pub fn is_update_query(query: &str) -> (r: bool)
    ensures
        r == is_update_text(uppercased(trim(query@))),
{
    let v = chars_of(query);
    let t = trim_exec(&v);
    let ts = string_of(t.as_slice());
    let u = chars_of(to_upper(ts.as_str()).as_str());
    let ins = vec!['I', 'N', 'S', 'E', 'R', 'T'];
    let del = vec!['D', 'E', 'L', 'E', 'T', 'E'];
    assert(ins@ =~= seq!['I', 'N', 'S', 'E', 'R', 'T']);
    assert(del@ =~= seq!['D', 'E', 'L', 'E', 'T', 'E']);
    matches_at_exec(&u, &ins, 0) || matches_at_exec(&u, &del, 0)
}

/// The browse endpoints accept only URLs that start with `http`.
pub fn is_browsable_url(url: &str) -> (r: bool)
    ensures
        r == has_prefix(url@, seq!['h', 't', 't', 'p']),
{
    let v = chars_of(url);
    let p = vec!['h', 't', 't', 'p'];
    assert(p@ =~= seq!['h', 't', 't', 'p']);
    matches_at_exec(&v, &p, 0)
}

/// The token response for freshly issued claims: the token and its lifetime.
pub fn token_response(token: String, exp: i64, iat: i64) -> (r: TokenResponse)
    requires
        i64::MIN <= exp - iat <= i64::MAX,
    ensures
        r.token == token,
        r.expires_in == exp - iat,
{
    TokenResponse { token, expires_in: exp - iat }
}

} // verus!
