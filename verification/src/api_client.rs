//! Configuration of the HTTP API client: base URL, default headers, and the
//! retry schedule of a request.
use vstd::prelude::*;
use vstd::arithmetic::power2::{pow2, lemma2_to64, lemma_pow2_strictly_increases, lemma_pow2_unfold};
use crate::strmap::StrMap;
use crate::text::{chars_of, has_prefix, lowercased, matches_at_exec, push_str, string_of, to_lower};

verus! {

/// API client configuration.
#[derive(Debug)]
pub struct ApiClientConfig {
    /// Base URL for all requests
    pub base_url: String,
    /// Default headers (lowercase names) included in all requests
    pub default_headers: StrMap<String>,
    /// Request timeout (seconds)
    pub timeout: u64,
    /// Enable retry on failure
    pub retry_enabled: bool,
    /// Maximum retry attempts
    pub max_retries: u32,
    /// User agent string
    pub user_agent: String,
}

impl Default for ApiClientConfig {
    fn default() -> (r: Self)
        ensures
            r.base_url@ == Seq::<char>::empty(),
            r.default_headers@.dom() == set!["content-type"@],
            r.default_headers@["content-type"@]@ == "application/json"@,
            r.timeout == 30,
            r.retry_enabled,
            r.max_retries == 3,
            r.user_agent@ == "SemanticBrowser/0.1.3"@,
    {
        let mut headers = StrMap::new();
        headers.insert("content-type".to_owned(), "application/json".to_owned());
        assert(headers@.dom() =~= set!["content-type"@]);
        ApiClientConfig {
            base_url: String::new(),
            default_headers: headers,
            timeout: 30,
            retry_enabled: true,
            max_retries: 3,
            user_agent: "SemanticBrowser/0.1.3".to_owned(),
        }
    }
}

/// `s` without its trailing `/` characters.
pub open spec fn without_trailing_slashes(s: Seq<char>) -> Seq<char>
    decreases s.len(),
{
    if s.len() > 0 && s.last() == '/' {
        without_trailing_slashes(s.drop_last())
    } else {
        s
    }
}

/// The URL of an endpoint: an absolute `http://` or `https://` URL as it is,
/// anything else appended to the base URL without its trailing slashes.
pub open spec fn endpoint_url(base: Seq<char>, endpoint: Seq<char>) -> Seq<char> {
    if has_prefix(endpoint, "http://"@) || has_prefix(endpoint, "https://"@) {
        endpoint
    } else {
        without_trailing_slashes(base) + endpoint
    }
}

/// Attempts a request gets: one, plus `max_retries` when retrying is enabled.
pub open spec fn attempt_count(c: ApiClientConfig) -> nat {
    if c.retry_enabled {
        (c.max_retries + 1) as nat
    } else {
        1
    }
}

/// The delay before attempt `attempt` (counted from 0): none before the first,
/// `2^(attempt - 1)` seconds before the others.
pub open spec fn retry_delay(attempt: nat) -> nat {
    if attempt == 0 {
        0
    } else {
        pow2((attempt - 1) as nat)
    }
}

impl ApiClientConfig {
    /// The URL of an endpoint.
    pub fn build_url(&self, endpoint: &str) -> (r: String)
        ensures
            r@ == endpoint_url(self.base_url@, endpoint@),
    {
        let e = chars_of(endpoint);
        let http = chars_of("http://");
        let https = chars_of("https://");
        if matches_at_exec(&e, &http, 0) || matches_at_exec(&e, &https, 0) {
            return endpoint.to_owned();
        }
        let b = chars_of(self.base_url.as_str());
        let mut n = b.len();
        assert(b@.take(n as int) =~= b@);
        while n > 0 && b[n - 1] == '/'
            invariant
                n <= b@.len(),
                b@ == self.base_url@,
                without_trailing_slashes(b@) == without_trailing_slashes(b@.take(n as int)),
            decreases n,
        {
            assert(b@.take(n as int).drop_last() =~= b@.take(n - 1));
            n = n - 1;
        }
        assert(b@.take(n as int).len() == 0 || b@.take(n as int).last() != '/');
        let mut url = string_of(&b.as_slice()[0..n]);
        assert(url@ =~= b@.take(n as int));
        push_str(&mut url, endpoint);
        url
    }

    /// How many attempts a request gets.
    pub fn attempts(&self) -> (r: u32)
        requires
            self.retry_enabled ==> self.max_retries < u32::MAX,
        ensures
            r as nat == attempt_count(*self),
    {
        if self.retry_enabled {
            self.max_retries + 1
        } else {
            1
        }
    }
}

/// The delay in seconds before attempt `attempt` (counted from 0).
pub fn retry_delay_secs(attempt: u32) -> (r: u64)
    requires
        attempt <= 64,
    ensures
        r as nat == retry_delay(attempt as nat),
{
    if attempt == 0 {
        return 0;
    }
    proof {
        lemma2_to64();
    }
    let mut value: u64 = 1;
    let mut i: u32 = 0;
    while i < attempt - 1
        invariant
            1 <= attempt <= 64,
            i <= attempt - 1,
            value as nat == pow2(i as nat),
            pow2(64) == 0x1_0000_0000_0000_0000,
        decreases attempt - 1 - i,
    {
        proof {
            lemma_pow2_unfold((i + 1) as nat);
            lemma_pow2_strictly_increases((i + 1) as nat, 64);
        }
        value = value * 2;
        i = i + 1;
    }
    value
}

/// An HTTP API client: its configuration (the connection is made by the caller).
#[derive(Debug)]
pub struct ApiClient {
    pub config: ApiClientConfig,
}

impl ApiClient {
    /// A client for `base_url` with the default configuration.
    pub fn new(base_url: &str) -> (r: Self)
        ensures
            r.config.base_url@ == base_url@,
            r.config.default_headers@.dom() == set!["content-type"@],
            r.config.timeout == 30,
            r.config.retry_enabled,
            r.config.max_retries == 3,
    {
        let mut config = ApiClientConfig::default();
        config.base_url = base_url.to_owned();
        ApiClient { config }
    }

    /// A client with the given configuration.
    pub fn with_config(config: ApiClientConfig) -> (r: Self)
        ensures
            r.config == config,
    {
        ApiClient { config }
    }

    /// The configuration.
    pub fn config(&self) -> (r: &ApiClientConfig)
        ensures
            *r == self.config,
    {
        &self.config
    }

    /// The same client with the default header `name` (lowercased) set to `value`.
    pub fn with_header(self, name: &str, value: &str) -> (r: Self)
        ensures
            r.config.default_headers@.dom() == self.config.default_headers@.dom().insert(lowercased(name@)),
            r.config.default_headers@[lowercased(name@)]@ == value@,
            forall|k: Seq<char>| #[trigger] self.config.default_headers@.contains_key(k) && k != lowercased(name@)
                ==> r.config.default_headers@[k] == self.config.default_headers@[k],
            r.config.base_url == self.config.base_url,
    {
        let mut c = self;
        let key = to_lower(name);
        c.config.default_headers.insert(key, value.to_owned());
        c
    }

    /// The same client with bearer token authentication.
    pub fn with_bearer_token(self, token: &str) -> (r: Self)
        ensures
            r.config.default_headers@.dom() == self.config.default_headers@.dom().insert("authorization"@),
            r.config.default_headers@["authorization"@]@ == "Bearer "@ + token@,
            r.config.base_url == self.config.base_url,
    {
        let mut c = self;
        let mut value = "Bearer ".to_owned();
        push_str(&mut value, token);
        c.config.default_headers.insert("authorization".to_owned(), value);
        c
    }

    /// The same client with the API key header `header_name` set to `api_key`.
    pub fn with_api_key(self, header_name: &str, api_key: &str) -> (r: Self)
        ensures
            r.config.default_headers@.dom() == self.config.default_headers@.dom().insert(lowercased(header_name@)),
            r.config.default_headers@[lowercased(header_name@)]@ == api_key@,
            r.config.base_url == self.config.base_url,
    {
        self.with_header(header_name, api_key)
    }

    /// The URL of an endpoint.
    pub fn build_url(&self, endpoint: &str) -> (r: String)
        ensures
            r@ == endpoint_url(self.config.base_url@, endpoint@),
    {
        self.config.build_url(endpoint)
    }
}

} // verus!
