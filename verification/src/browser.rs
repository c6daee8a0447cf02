//! Browser configuration, read from textual settings, and navigation options.
use vstd::prelude::*;
use crate::page_meta::{
    cleaned, content_text, html_attr_pairs, html_first_attr, keyword_list, opt_chars, page_meta, page_text, property_map,
};
use crate::parser::{accepted_count, extract_page, html_json_ld_texts, item_view, page_microdata};
use crate::models::MicrodataItem;
use crate::strmap::{keys_distinct, map_of, StrMap};
use crate::text::{chars_of, str_eq, string_of, trim, trim_exec};

verus! {

/// An ASCII decimal digit.
pub open spec fn is_digit(c: char) -> bool {
    '0' <= c && c <= '9'
}

/// The number that the decimal digits `s` write.
pub open spec fn digits_value(s: Seq<char>) -> nat
    decreases s.len(),
{
    if s.len() == 0 {
        0
    } else {
        digits_value(s.drop_last()) * 10 + ((s.last() as u32) - ('0' as u32)) as nat
    }
}

/// `s` without a leading `+` sign.
pub open spec fn sign_stripped(s: Seq<char>) -> Seq<char> {
    if s.len() > 0 && s[0] == '+' {
        s.skip(1)
    } else {
        s
    }
}

/// Every character of `d` is a decimal digit.
pub open spec fn all_digits(d: Seq<char>) -> bool {
    forall|i: int| 0 <= i < d.len() ==> is_digit(#[trigger] d[i])
}

/// What `str::parse` gives for an unsigned integer type whose largest value is
/// `max`: an optional `+` sign followed by one or more decimal digits whose value
/// is at most `max`.
pub open spec fn parsed_unsigned(s: Seq<char>, max: nat) -> Option<nat> {
    let d = sign_stripped(s);
    if d.len() > 0 && all_digits(d) && digits_value(d) <= max {
        Some(digits_value(d))
    } else {
        None
    }
}

/// What `str::parse::<bool>` gives: exactly `true` or `false`.
pub open spec fn parsed_bool(s: Seq<char>) -> Option<bool> {
    if s == "true"@ {
        Some(true)
    } else if s == "false"@ {
        Some(false)
    } else {
        None
    }
}

/// Appending a digit never makes the value smaller.
proof fn lemma_digits_value_prefix(d: Seq<char>, k: int, n: int)
    requires
        0 <= k <= n <= d.len(),
        all_digits(d),
    ensures
        digits_value(d.take(k)) <= digits_value(d.take(n)),
    decreases n - k,
{
    if k < n {
        lemma_digits_value_prefix(d, k, n - 1);
        assert(d.take(n).drop_last() =~= d.take(n - 1));
        assert(is_digit(d[n - 1]));
    }
}

/// Parses an unsigned decimal integer no larger than `max`, as `str::parse` does.
pub fn parse_unsigned(s: &str, max: u64) -> (r: Option<u64>)
    ensures
        match r {
            Some(v) => parsed_unsigned(s@, max as nat) == Some(v as nat),
            None => parsed_unsigned(s@, max as nat) is None,
        },
{
    let v = chars_of(s);
    let start: usize = if v.len() > 0 && v[0] == '+' {
        1
    } else {
        0
    };
    let ghost d = sign_stripped(s@);
    assert(d =~= v@.skip(start as int));
    if start >= v.len() {
        return None;
    }
    let mut value: u64 = 0;
    let mut i = start;
    while i < v.len()
        invariant
            start <= i <= v@.len(),
            v@ == s@,
            d == v@.skip(start as int),
            d == sign_stripped(s@),
            d.len() > 0,
            forall|j: int| 0 <= j < i - start ==> is_digit(#[trigger] d[j]),
            value as nat == digits_value(d.take(i - start)),
            value <= max,
        decreases v.len() - i,
    {
        let c = v[i];
        if c < '0' || c > '9' {
            assert(!is_digit(d[i - start]));
            return None;
        }
        let digit = (c as u32) - ('0' as u32);
        let next: u128 = (value as u128) * 10 + (digit as u128);
        proof {
            assert(d.take(i - start + 1).drop_last() =~= d.take(i - start));
            assert(d.take(i - start + 1).last() == c);
        }
        if next > max as u128 {
            proof {
                if all_digits(d) {
                    lemma_digits_value_prefix(d, i - start + 1, d.len() as int);
                    assert(d.take(d.len() as int) =~= d);
                }
            }
            return None;
        }
        value = next as u64;
        i = i + 1;
    }
    assert(d.take(d.len() as int) =~= d);
    Some(value)
}

/// Parses `true` or `false`, as `str::parse::<bool>` does.
pub fn parse_bool(s: &str) -> (r: Option<bool>)
    ensures
        r == parsed_bool(s@),
{
    if str_eq(s, "true") {
        Some(true)
    } else if str_eq(s, "false") {
        Some(false)
    } else {
        None
    }
}

/// A boolean setting: its parsed value, or `default` when it is unset or unreadable.
pub open spec fn bool_setting(v: Option<String>, default: bool) -> bool {
    match v {
        Some(s) => match parsed_bool(s@) {
            Some(b) => b,
            None => default,
        },
        None => default,
    }
}

/// An unsigned setting: its parsed value, or `default` when it is unset or unreadable.
pub open spec fn unsigned_setting(v: Option<String>, max: nat, default: nat) -> nat {
    match v {
        Some(s) => match parsed_unsigned(s@, max) {
            Some(n) => n,
            None => default,
        },
        None => default,
    }
}

fn read_bool(v: &Option<String>, default: bool) -> (r: bool)
    ensures
        r == bool_setting(*v, default),
{
    match v {
        Some(s) => match parse_bool(s.as_str()) {
            Some(b) => b,
            None => default,
        },
        None => default,
    }
}

fn read_unsigned(v: &Option<String>, max: u64, default: u64) -> (r: u64)
    requires
        default <= max,
    ensures
        r as nat == unsigned_setting(*v, max as nat, default as nat),
{
    match v {
        Some(s) => match parse_unsigned(s.as_str(), max) {
            Some(n) => n,
            None => default,
        },
        None => default,
    }
}

/// The raw text of each browser setting, `None` where it is unset.
#[derive(Debug, Clone)]
pub struct BrowserSettings {
    /// `CHROMIUM_PATH`
    pub chromium_path: Option<String>,
    /// `BROWSER_HEADLESS`
    pub headless: Option<String>,
    /// `BLOCK_ADS`
    pub block_ads: Option<String>,
    /// `BLOCK_IMAGES`
    pub block_images: Option<String>,
    /// `BROWSER_TIMEOUT_SECS`
    pub timeout_secs: Option<String>,
    /// `BROWSER_POOL_SIZE`
    pub pool_size: Option<String>,
    /// `CHROMIUMOXIDE_USER_DATA_DIR`
    pub user_data_dir: Option<String>,
}

/// Browser configuration for minimalist navigation.
#[derive(Debug, Clone)]
pub struct BrowserConfig {
    /// Path to Chromium/Chrome executable (optional, auto-detect if None)
    pub chromium_path: Option<String>,
    /// Run in headless mode
    pub headless: bool,
    /// Block ads and trackers
    pub block_ads: bool,
    /// Block images (for text-only extraction)
    pub block_images: bool,
    /// Default navigation timeout in seconds
    pub timeout_secs: u64,
    /// Maximum number of concurrent tabs
    pub pool_size: usize,
    /// Directory for Chromium user data (profile)
    pub user_data_dir: Option<String>,
}

/// The profile directory: the trimmed setting when it is not blank, else `fallback`.
pub open spec fn profile_dir(setting: Option<String>, fallback: Option<Seq<char>>) -> Option<Seq<char>> {
    match setting {
        Some(s) => if trim(s@).len() > 0 {
            Some(trim(s@))
        } else {
            fallback
        },
        None => fallback,
    }
}

impl BrowserConfig {
    /// The configuration that the settings describe: headless and ad blocking on,
    /// image blocking off, a 30 s timeout and 2 tabs unless a setting says
    /// otherwise; the profile directory falls back to `fallback_profile_dir`.
    pub fn from_settings(settings: &BrowserSettings, fallback_profile_dir: Option<String>) -> (r: Self)
        ensures
            r.chromium_path == settings.chromium_path,
            r.headless == bool_setting(settings.headless, true),
            r.block_ads == bool_setting(settings.block_ads, true),
            r.block_images == bool_setting(settings.block_images, false),
            r.timeout_secs as nat == unsigned_setting(settings.timeout_secs, u64::MAX as nat, 30),
            r.pool_size as nat == unsigned_setting(settings.pool_size, usize::MAX as nat, 2),
            opt_string_chars(r.user_data_dir) == profile_dir(
                settings.user_data_dir,
                opt_string_chars(fallback_profile_dir),
            ),
    {
        let headless = read_bool(&settings.headless, true);
        let block_ads = read_bool(&settings.block_ads, true);
        let block_images = read_bool(&settings.block_images, false);
        let timeout_secs = read_unsigned(&settings.timeout_secs, u64::MAX, 30);
        let pool_size = read_pool_size(&settings.pool_size);
        let user_data_dir = match &settings.user_data_dir {
            Some(value) => {
                let chars = chars_of(value.as_str());
                let trimmed = trim_exec(&chars);
                if trimmed.len() == 0 {
                    fallback_profile_dir
                } else {
                    Some(string_of(trimmed.as_slice()))
                }
            },
            None => fallback_profile_dir,
        };
        BrowserConfig {
            chromium_path: settings.chromium_path.clone(),
            headless,
            block_ads,
            block_images,
            timeout_secs,
            pool_size,
            user_data_dir,
        }
    }
}

/// The characters of an optional string.
pub open spec fn opt_string_chars(o: Option<String>) -> Option<Seq<char>> {
    match o {
        Some(s) => Some(s@),
        None => None,
    }
}

fn read_pool_size(v: &Option<String>) -> (r: usize)
    ensures
        r as nat == unsigned_setting(*v, usize::MAX as nat, 2),
{
    let max = usize::MAX as u64;
    let n = read_unsigned(v, max, 2);
    n as usize
}

impl Default for BrowserConfig {
    /// The configuration of an empty environment, with no profile directory.
    fn default() -> (r: Self)
        ensures
            r.chromium_path is None,
            r.headless,
            r.block_ads,
            !r.block_images,
            r.timeout_secs == 30,
            r.pool_size == 2,
            r.user_data_dir is None,
    {
        let settings = BrowserSettings {
            chromium_path: None,
            headless: None,
            block_ads: None,
            block_images: None,
            timeout_secs: None,
            pool_size: None,
            user_data_dir: None,
        };
        Self::from_settings(&settings, None)
    }
}

/// Navigation options for individual requests.
#[derive(Debug)]
pub struct NavigationOptions {
    /// Wait for specific selector before considering page loaded
    pub wait_for_selector: Option<String>,
    /// Custom cookies to set before navigation
    pub cookies: StrMap<String>,
    /// Take screenshot after navigation
    pub take_screenshot: bool,
    /// Custom JavaScript to execute after page load
    pub execute_js: Option<String>,
    /// Maximum number of retry attempts on failure (default: 3)
    pub max_retries: u32,
}

impl Default for NavigationOptions {
    fn default() -> (r: Self)
        ensures
            r.wait_for_selector is None,
            r.cookies@ == Map::<Seq<char>, String>::empty(),
            !r.take_screenshot,
            r.execute_js is None,
            r.max_retries == 3,
    {
        NavigationOptions {
            wait_for_selector: None,
            cookies: StrMap::new(),
            take_screenshot: false,
            execute_js: None,
            max_retries: 3,
        }
    }
}

/// What a browser navigation extracts from a page.
#[derive(Debug)]
pub struct SemanticData {
    /// Page title
    pub title: Option<String>,
    /// JSON-LD structured data
    pub json_ld: Vec<serde_json::Value>,
    /// Microdata items
    pub microdata: Vec<crate::models::MicrodataItem>,
    /// Plain text content (for NER)
    pub text_content: String,
    /// Screenshot bytes (if requested)
    pub screenshot: Option<Vec<u8>>,
    /// Final URL after redirects
    pub final_url: String,
    /// Meta description tag
    pub meta_description: Option<String>,
    /// Meta keywords (comma-separated -> vec)
    pub meta_keywords: Vec<String>,
    /// Page language (from html lang attribute)
    pub language: Option<String>,
    /// Canonical URL (rel="canonical")
    pub canonical_url: Option<String>,
    /// Open Graph properties (without the `og:` prefix) and their values.
    pub open_graph: Vec<(String, String)>,
    /// Twitter Card properties (without the `twitter:` prefix) and their values.
    pub twitter_card: Vec<(String, String)>,
}

/// The text values of a list of text pairs, as a map.
pub open spec fn pair_map(ps: Seq<(String, String)>) -> Map<Seq<char>, Seq<char>> {
    map_of(ps).map_values(|v: String| v@)
}

/// What a navigation extracts from a page: the final URL, title and screenshot
/// that the browser reports, and what the page's HTML holds (its JSON-LD objects,
/// microdata items, main text and metadata).
pub fn semantic_data_from_page(
    html: &str,
    final_url: String,
    title: Option<String>,
    screenshot: Option<Vec<u8>>,
) -> (r: SemanticData)
    ensures
        r.final_url == final_url,
        r.title == title,
        r.screenshot == screenshot,
        r.json_ld@.len() == accepted_count(html_json_ld_texts(html@)),
        r.microdata@.map_values(|it: MicrodataItem| item_view(it)) == page_microdata(html@),
        r.text_content@ == content_text(html@),
        opt_chars(r.meta_description) == cleaned(html_first_attr(html@, "meta[name='description']"@, "content"@)),
        opt_chars(r.language) == cleaned(html_first_attr(html@, "html"@, "lang"@)),
        opt_chars(r.canonical_url) == cleaned(html_first_attr(html@, "link[rel='canonical']"@, "href"@)),
        r.meta_keywords@.map_values(|s: String| s@) == match html_first_attr(html@, "meta[name='keywords']"@, "content"@) {
            Some(c) => keyword_list(c),
            None => Seq::empty(),
        },
        keys_distinct(r.open_graph@),
        pair_map(r.open_graph@) == property_map(
            html_attr_pairs(html@, "meta[property^='og:']"@, "property"@, "content"@),
            "og:"@,
        ),
        keys_distinct(r.twitter_card@),
        pair_map(r.twitter_card@) == property_map(
            html_attr_pairs(html@, "meta[name^='twitter:']"@, "name"@, "content"@),
            "twitter:"@,
        ),
{
    let page = extract_page(html);
    let text_content = page_text(html);
    let meta = page_meta(html);
    let open_graph = meta.open_graph.into_pairs();
    let twitter_card = meta.twitter_card.into_pairs();
    SemanticData {
        title,
        json_ld: page.json_ld,
        microdata: page.microdata,
        text_content,
        screenshot,
        final_url,
        meta_description: meta.description,
        meta_keywords: meta.keywords,
        language: meta.language,
        canonical_url: meta.canonical_url,
        open_graph,
        twitter_card,
    }
}

} // verus!
