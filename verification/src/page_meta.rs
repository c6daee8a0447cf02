//! The metadata of a page read from its `<meta>`, `<html lang>` and canonical
//! link elements: description, keywords, language, canonical URL, Open Graph
//! and Twitter Card properties; and the main text of a page.
use vstd::prelude::*;
use crate::kg_integration::{collapse_whitespace, collapsed};
use crate::strmap::StrMap;
use crate::text::{chars_of, has_prefix, is_empty_text, matches_at_exec, string_of, substring_of, trim, trim_exec};

verus! {

/// Name for the attribute `attr` of the first element that matches the CSS
/// selector `selector`, as `scraper` parses the page (nothing when no element
/// matches or the first one lacks the attribute).
pub uninterp spec fn html_first_attr(html: Seq<char>, selector: Seq<char>, attr: Seq<char>) -> Option<Seq<char>>;

/// Name for the attributes `key` and `value` of each element that matches the
/// CSS selector `selector`, in document order, as `scraper` parses the page.
pub uninterp spec fn html_attr_pairs(html: Seq<char>, selector: Seq<char>, key: Seq<char>, value: Seq<char>) -> Seq<(Option<Seq<char>>, Option<Seq<char>>)>;

/// A CSS selector with no `(`: it holds no functional pseudo-class (`:not(..)`,
/// `:is(..)`, ...), whose arguments the selector parser reads recursively with no
/// depth limit.
pub open spec fn selector_safe(s: Seq<char>) -> bool {
    forall|i: int| 0 <= i < s.len() ==> s[i] != '('
}

/// Texts with no `(` joined stay without one.
pub proof fn lemma_selector_safe_concat(a: Seq<char>, b: Seq<char>)
    requires
        selector_safe(a),
        selector_safe(b),
    ensures
        selector_safe(a + b),
{
    assert forall|i: int| 0 <= i < (a + b).len() implies (a + b)[i] != '(' by {
        if i < a.len() {
            assert((a + b)[i] == a[i]);
        } else {
            assert((a + b)[i] == b[i - a.len()]);
        }
    }
}

/// The characters of an optional string.
pub open spec fn opt_chars(o: Option<String>) -> Option<Seq<char>> {
    match o {
        Some(s) => Some(s@),
        None => None,
    }
}

/// A pair of optional attributes, as values.
pub open spec fn pair_view(p: (Option<String>, Option<String>)) -> (Option<Seq<char>>, Option<Seq<char>>) {
    (opt_chars(p.0), opt_chars(p.1))
}

/// Parses `html` with `scraper::Html::parse_document` and reads the attribute
/// `attr` of the first element matching `selector`. Claimed: the result is
/// `html_first_attr` of the three texts.
#[verifier::external_body]
fn first_attr(html: &str, selector: &str, attr: &str) -> (r: Option<String>)
    requires
        selector_safe(selector@),
    ensures
        opt_chars(r) == html_first_attr(html@, selector@, attr@),
{
    let doc = scraper::Html::parse_document(html);
    let sel = scraper::Selector::parse(selector).ok()?;
    let first = doc.select(&sel).next()?;
    first.attr(attr).map(String::from)
}

/// Parses `html` with `scraper::Html::parse_document` and reads the attributes
/// `key` and `value` of every element matching `selector`. Claimed: the result
/// is `html_attr_pairs` of the four texts.
#[verifier::external_body]
fn attr_pairs(html: &str, selector: &str, key: &str, value: &str) -> (r: Vec<(Option<String>, Option<String>)>)
    requires
        selector_safe(selector@),
    ensures
        r@.map_values(|p: (Option<String>, Option<String>)| pair_view(p)) == html_attr_pairs(html@, selector@, key@, value@),
{
    let doc = scraper::Html::parse_document(html);
    let mut out = Vec::new();
    if let Ok(sel) = scraper::Selector::parse(selector) {
        for element in doc.select(&sel) {
            out.push((element.attr(key).map(String::from), element.attr(value).map(String::from)));
        }
    }
    out
}

/// An attribute value trimmed, when something is left of it.
pub open spec fn cleaned(v: Option<Seq<char>>) -> Option<Seq<char>> {
    match v {
        Some(s) => if trim(s).len() > 0 {
            Some(trim(s))
        } else {
            None
        },
        None => None,
    }
}

fn clean(v: Option<String>) -> (r: Option<String>)
    ensures
        opt_chars(r) == cleaned(opt_chars(v)),
{
    match v {
        Some(s) => {
            let c = chars_of(s.as_str());
            let t = trim_exec(&c);
            if t.len() > 0 {
                Some(string_of(t.as_slice()))
            } else {
                None
            }
        },
        None => None,
    }
}

/// The finished pieces and the current piece of `s` split at `sep`, after its
/// first `n` characters.
pub open spec fn pieces_upto(s: Seq<char>, sep: char, n: nat) -> (Seq<Seq<char>>, Seq<char>)
    decreases n,
{
    if n == 0 {
        (Seq::empty(), Seq::empty())
    } else {
        let (done, cur) = pieces_upto(s, sep, (n - 1) as nat);
        if s[n - 1] == sep {
            (done.push(cur), Seq::empty())
        } else {
            (done, cur.push(s[n - 1]))
        }
    }
}

/// The trimmed non-empty pieces of `ps`, in order.
pub open spec fn kept_pieces(ps: Seq<Seq<char>>) -> Seq<Seq<char>>
    decreases ps.len(),
{
    if ps.len() == 0 {
        Seq::empty()
    } else {
        let rest = kept_pieces(ps.drop_last());
        if trim(ps.last()).len() > 0 {
            rest.push(trim(ps.last()))
        } else {
            rest
        }
    }
}

/// The keywords of a comma-separated list: each piece trimmed, empty ones dropped.
pub open spec fn keyword_list(s: Seq<char>) -> Seq<Seq<char>> {
    let (done, cur) = pieces_upto(s, ',', s.len());
    kept_pieces(done.push(cur))
}

/// Splits a comma-separated keyword list.
pub fn split_keywords(content: &str) -> (r: Vec<String>)
    ensures
        r@.map_values(|s: String| s@) == keyword_list(content@),
{
    let s = chars_of(content);
    let mut out: Vec<String> = Vec::new();
    let mut cur: Vec<char> = Vec::new();
    let mut k: usize = 0;
    assert(out@.map_values(|x: String| x@) =~= kept_pieces(Seq::<Seq<char>>::empty()));
    while k < s.len()
        invariant
            k <= s@.len(),
            s@ == content@,
            cur@ == pieces_upto(s@, ',', k as nat).1,
            out@.map_values(|x: String| x@) == kept_pieces(pieces_upto(s@, ',', k as nat).0),
        decreases s.len() - k,
    {
        let c = s[k];
        if c == ',' {
            let ghost done = pieces_upto(s@, ',', k as nat).0;
            let t = trim_exec(&cur);
            if t.len() > 0 {
                out.push(string_of(t.as_slice()));
            }
            proof {
                assert(done.push(cur@).drop_last() =~= done);
                assert(out@.map_values(|x: String| x@) =~= kept_pieces(done.push(cur@)));
            }
            cur = Vec::new();
        } else {
            cur.push(c);
        }
        k = k + 1;
    }
    let ghost done = pieces_upto(s@, ',', s@.len()).0;
    let t = trim_exec(&cur);
    if t.len() > 0 {
        out.push(string_of(t.as_slice()));
    }
    proof {
        assert(done.push(cur@).drop_last() =~= done);
        assert(out@.map_values(|x: String| x@) =~= kept_pieces(done.push(cur@)));
    }
    out
}

/// `s` with every leading copy of `p` removed (`str::trim_start_matches`).
pub open spec fn without_leading(s: Seq<char>, p: Seq<char>) -> Seq<char>
    decreases s.len(),
{
    if p.len() > 0 && has_prefix(s, p) {
        without_leading(s.skip(p.len() as int), p)
    } else {
        s
    }
}

fn strip_leading(s: &str, p: &str) -> (r: String)
    ensures
        r@ == without_leading(s@, p@),
{
    let v = chars_of(s);
    let pv = chars_of(p);
    if pv.len() == 0 {
        return s.to_owned();
    }
    let mut i: usize = 0;
    assert(v@.skip(0) =~= v@);
    while matches_at_exec(&v, &pv, i)
        invariant
            i <= v@.len(),
            pv@ == p@,
            pv@.len() > 0,
            v@ == s@,
            without_leading(s@, p@) == without_leading(v@.skip(i as int), p@),
        decreases v.len() - i,
    {
        proof {
            let rest = v@.skip(i as int);
            assert(rest.subrange(0, pv@.len() as int) =~= v@.subrange(i as int, i + pv@.len()));
            assert(rest.skip(pv@.len() as int) =~= v@.skip(i + pv@.len()));
        }
        i = i + pv.len();
    }
    proof {
        let rest = v@.skip(i as int);
        if has_prefix(rest, p@) {
            assert(rest.subrange(0, pv@.len() as int) =~= v@.subrange(i as int, i + pv@.len()));
        }
    }
    let r = substring_of(&v, i, v.len());
    assert(r@ =~= v@.skip(i as int));
    r
}

/// The property map that the (key, value) attribute pairs describe: keys without
/// their leading `prefix` copies, values trimmed, pairs lacking either attribute
/// skipped, later pairs replacing earlier ones.
pub open spec fn property_map(ps: Seq<(Option<Seq<char>>, Option<Seq<char>>)>, prefix: Seq<char>) -> Map<Seq<char>, Seq<char>>
    decreases ps.len(),
{
    if ps.len() == 0 {
        Map::empty()
    } else {
        let m = property_map(ps.drop_last(), prefix);
        match ps.last() {
            (Some(k), Some(v)) => m.insert(without_leading(k, prefix), trim(v)),
            _ => m,
        }
    }
}

/// The values of a string map, as characters.
pub open spec fn text_map(m: StrMap<String>) -> Map<Seq<char>, Seq<char>> {
    m@.map_values(|v: String| v@)
}

fn collect_properties(pairs: &Vec<(Option<String>, Option<String>)>, prefix: &str) -> (r: StrMap<String>)
    ensures
        text_map(r) == property_map(pairs@.map_values(|p: (Option<String>, Option<String>)| pair_view(p)), prefix@),
{
    let ghost pv = pairs@.map_values(|p: (Option<String>, Option<String>)| pair_view(p));
    let mut m: StrMap<String> = StrMap::new();
    let mut i: usize = 0;
    assert(text_map(m) =~= property_map(pv.take(0), prefix@));
    while i < pairs.len()
        invariant
            i <= pairs@.len(),
            pv == pairs@.map_values(|p: (Option<String>, Option<String>)| pair_view(p)),
            text_map(m) == property_map(pv.take(i as int), prefix@),
        decreases pairs.len() - i,
    {
        let ghost before = text_map(m);
        proof {
            let t = pv.take(i + 1);
            assert(t.drop_last() =~= pv.take(i as int));
            assert(t.last() == pair_view(pairs@[i as int]));
        }
        match (&pairs[i].0, &pairs[i].1) {
            (Some(k), Some(v)) => {
                let key = strip_leading(k.as_str(), prefix);
                let vc = chars_of(v.as_str());
                let value = trim_exec(&vc);
                m.insert(key, string_of(value.as_slice()));
                assert(text_map(m) =~= before.insert(without_leading(k@, prefix@), trim(v@)));
            },
            _ => {},
        }
        i = i + 1;
    }
    assert(pv.take(pairs@.len() as int) =~= pv);
    m
}

/// The metadata of a page.
#[derive(Debug)]
pub struct PageMeta {
    /// `<meta name='description'>`, trimmed.
    pub description: Option<String>,
    /// `<meta name='keywords'>`, split at commas.
    pub keywords: Vec<String>,
    /// `<html lang>`, trimmed.
    pub language: Option<String>,
    /// `<link rel='canonical'>`, trimmed.
    pub canonical_url: Option<String>,
    /// `og:` properties.
    pub open_graph: StrMap<String>,
    /// `twitter:` properties.
    pub twitter_card: StrMap<String>,
}

/// The selectors of the metadata hold no `(`.
proof fn lemma_meta_selectors_safe()
    ensures
        selector_safe("meta[name='description']"@),
        selector_safe("html"@),
        selector_safe("link[rel='canonical']"@),
        selector_safe("meta[name='keywords']"@),
        selector_safe("meta[property^='og:']"@),
        selector_safe("meta[name^='twitter:']"@),
{
    reveal_strlit("meta[name='description']");
    reveal_strlit("html");
    reveal_strlit("link[rel='canonical']");
    reveal_strlit("meta[name='keywords']");
    reveal_strlit("meta[property^='og:']");
    reveal_strlit("meta[name^='twitter:']");
}

/// Reads the metadata of a page.
pub fn page_meta(html: &str) -> (r: PageMeta)
    ensures
        opt_chars(r.description) == cleaned(html_first_attr(html@, "meta[name='description']"@, "content"@)),
        opt_chars(r.language) == cleaned(html_first_attr(html@, "html"@, "lang"@)),
        opt_chars(r.canonical_url) == cleaned(html_first_attr(html@, "link[rel='canonical']"@, "href"@)),
        r.keywords@.map_values(|s: String| s@) == match html_first_attr(html@, "meta[name='keywords']"@, "content"@) {
            Some(c) => keyword_list(c),
            None => Seq::empty(),
        },
        text_map(r.open_graph) == property_map(
            html_attr_pairs(html@, "meta[property^='og:']"@, "property"@, "content"@),
            "og:"@,
        ),
        text_map(r.twitter_card) == property_map(
            html_attr_pairs(html@, "meta[name^='twitter:']"@, "name"@, "content"@),
            "twitter:"@,
        ),
{
    proof {
        lemma_meta_selectors_safe();
    }
    let description = clean(first_attr(html, "meta[name='description']", "content"));
    let language = clean(first_attr(html, "html", "lang"));
    let canonical_url = clean(first_attr(html, "link[rel='canonical']", "href"));
    let keywords = match first_attr(html, "meta[name='keywords']", "content") {
        Some(c) => split_keywords(c.as_str()),
        None => {
            let v: Vec<String> = Vec::new();
            assert(v@.map_values(|s: String| s@) =~= Seq::<Seq<char>>::empty());
            v
        },
    };
    let og_pairs = attr_pairs(html, "meta[property^='og:']", "property", "content");
    let open_graph = collect_properties(&og_pairs, "og:");
    let tw_pairs = attr_pairs(html, "meta[name^='twitter:']", "name", "content");
    let twitter_card = collect_properties(&tw_pairs, "twitter:");
    PageMeta { description, keywords, language, canonical_url, open_graph, twitter_card }
}

/// Name for the text of the first element that matches the CSS selector
/// `selector`, its text nodes joined by single spaces, as `scraper` parses the
/// page (nothing when no element matches).
pub uninterp spec fn html_element_text(html: Seq<char>, selector: Seq<char>) -> Option<Seq<char>>;

/// Parses `html` with `scraper::Html::parse_document` and joins, with `" "`, the
/// text nodes of the first element matching `selector`. Claimed: the result is
/// `html_element_text` of the two texts.
#[verifier::external_body]
fn element_text(html: &str, selector: &str) -> (r: Option<String>)
    requires
        selector_safe(selector@),
    ensures
        opt_chars(r) == html_element_text(html@, selector@),
{
    let doc = scraper::Html::parse_document(html);
    let sel = scraper::Selector::parse(selector).ok()?;
    doc.select(&sel).next().map(|e| e.text().collect::<Vec<_>>().join(" "))
}

/// The words of the first element matching `selector`, when it has some.
pub open spec fn section_words(html: Seq<char>, selector: Seq<char>) -> Option<Seq<char>> {
    match html_element_text(html, selector) {
        Some(t) => if collapsed(t).len() > 0 {
            Some(collapsed(t))
        } else {
            None
        },
        None => None,
    }
}

/// `a` when it holds a text, else `b`.
pub open spec fn or_else(a: Option<Seq<char>>, b: Seq<char>) -> Seq<char> {
    match a {
        Some(t) => t,
        None => b,
    }
}

/// The main text of a page, its words joined by single spaces: that of the first
/// of `main`, `article`, `[role="main"]`, `.content`, `#content` that has words,
/// else that of `body`, else nothing.
pub open spec fn content_text(html: Seq<char>) -> Seq<char> {
    or_else(
        section_words(html, "main"@),
        or_else(
            section_words(html, "article"@),
            or_else(
                section_words(html, "[role=\"main\"]"@),
                or_else(
                    section_words(html, ".content"@),
                    or_else(
                        section_words(html, "#content"@),
                        match html_element_text(html, "body"@) {
                            Some(t) => collapsed(t),
                            None => Seq::empty(),
                        },
                    ),
                ),
            ),
        ),
    )
}

/// The selectors of the content areas hold no `(`.
proof fn lemma_content_selectors_safe()
    ensures
        selector_safe("main"@),
        selector_safe("article"@),
        selector_safe("[role=\"main\"]"@),
        selector_safe(".content"@),
        selector_safe("#content"@),
        selector_safe("body"@),
{
    reveal_strlit("main");
    reveal_strlit("article");
    reveal_strlit("[role=\"main\"]");
    reveal_strlit(".content");
    reveal_strlit("#content");
    reveal_strlit("body");
}

/// The words of the first element matching `selector`, when it has some.
fn section(html: &str, selector: &str) -> (r: Option<String>)
    requires
        selector_safe(selector@),
    ensures
        opt_chars(r) == section_words(html@, selector@),
{
    match element_text(html, selector) {
        Some(t) => {
            let c = collapse_whitespace(t.as_str());
            if is_empty_text(c.as_str()) {
                None
            } else {
                Some(c)
            }
        },
        None => None,
    }
}

/// The main text of a page: that of its main content area, else of its body.
pub fn page_text(html: &str) -> (r: String)
    ensures
        r@ == content_text(html@),
{
    proof {
        lemma_content_selectors_safe();
    }
    if let Some(t) = section(html, "main") {
        return t;
    }
    if let Some(t) = section(html, "article") {
        return t;
    }
    if let Some(t) = section(html, "[role=\"main\"]") {
        return t;
    }
    if let Some(t) = section(html, ".content") {
        return t;
    }
    if let Some(t) = section(html, "#content") {
        return t;
    }
    match element_text(html, "body") {
        Some(b) => collapse_whitespace(b.as_str()),
        None => String::new(),
    }
}

} // verus!
