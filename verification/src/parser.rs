//! Reading the semantic elements of an HTML page: its title, its JSON-LD blocks
//! and its microdata items.
//!
//! The HTML parser (`scraper`) finds the elements; this module checks the input,
//! groups microdata properties and reads the JSON-LD blocks.
use vstd::prelude::*;
use crate::models::MicrodataItem;
use crate::security::{html_message, html_rejection, validate_html_input};
use crate::kg::{decimal, decimal_string};
use crate::strmap::StrMap;
use crate::text::{lowercased, push_str};
use crate::json::json_valid;

verus! {

/// A JSON value (`serde_json::Value`), carried as it is.
#[verifier::external_type_specification]
#[verifier::external_body]
pub struct ExJsonValue(serde_json::Value);

/// Name for the text of the first `<title>` element of a page, as `scraper`
/// parses it.
pub uninterp spec fn html_title_text(html: Seq<char>) -> Option<Seq<char>>;

/// Name for the first text node of each `<script type="application/ld+json">`
/// element that has one, in document order, as `scraper` parses the page.
pub uninterp spec fn html_json_ld_texts(html: Seq<char>) -> Seq<Seq<char>>;

/// Name for the `[itemscope]` elements of a page, in document order, as `scraper`
/// parses it: each element's `itemtype` attribute, and for each `[itemprop]`
/// element inside it, its `itemprop` attribute and its text.
pub uninterp spec fn html_microdata_raw(html: Seq<char>) -> Seq<(Option<Seq<char>>, Seq<(Option<Seq<char>>, Seq<char>)>)>;

/// The characters of an optional string.
pub open spec fn opt_text(o: Option<String>) -> Option<Seq<char>> {
    match o {
        Some(s) => Some(s@),
        None => None,
    }
}

/// A property found by the parser, as values.
pub open spec fn raw_prop_view(p: (Option<String>, String)) -> (Option<Seq<char>>, Seq<char>) {
    (opt_text(p.0), p.1@)
}

/// An item found by the parser, as values.
pub open spec fn raw_item_view(it: (Option<String>, Vec<(Option<String>, String)>)) -> (
    Option<Seq<char>>,
    Seq<(Option<Seq<char>>, Seq<char>)>,
) {
    (opt_text(it.0), it.1@.map_values(|p: (Option<String>, String)| raw_prop_view(p)))
}

/// Parses `html` with `scraper::Html::parse_document` and takes the text of the
/// first `title` element. Claimed: the result is `html_title_text` of the page.
#[verifier::external_body]
fn title_text(html: &str) -> (r: Option<String>)
    ensures
        opt_text(r) == html_title_text(html@),
{
    let doc = scraper::Html::parse_document(html);
    let sel = scraper::Selector::parse("title").ok()?;
    let first = doc.select(&sel).next()?;
    Some(first.text().collect::<String>())
}

/// Parses `html` with `scraper::Html::parse_document` and takes the first text
/// node of each JSON-LD script element. Claimed: the result is
/// `html_json_ld_texts` of the page.
#[verifier::external_body]
fn json_ld_texts(html: &str) -> (r: Vec<String>)
    ensures
        r@.map_values(|s: String| s@) == html_json_ld_texts(html@),
{
    let doc = scraper::Html::parse_document(html);
    let mut out = Vec::new();
    if let Ok(sel) = scraper::Selector::parse("script[type=\"application/ld+json\"]") {
        for element in doc.select(&sel) {
            if let Some(text) = element.text().next() {
                out.push(text.to_string());
            }
        }
    }
    out
}

/// Parses `html` with `scraper::Html::parse_document` and lists its microdata
/// elements with their properties. Claimed: the result is `html_microdata_raw`
/// of the page.
#[verifier::external_body]
fn microdata_raw(html: &str) -> (r: Vec<(Option<String>, Vec<(Option<String>, String)>)>)
    ensures
        r@.map_values(|it: (Option<String>, Vec<(Option<String>, String)>)| raw_item_view(it))
            == html_microdata_raw(html@),
{
    let doc = scraper::Html::parse_document(html);
    let mut out = Vec::new();
    if let (Ok(scope), Ok(prop)) = (scraper::Selector::parse("[itemscope]"), scraper::Selector::parse("[itemprop]")) {
        for element in doc.select(&scope) {
            let mut props = Vec::new();
            for p in element.select(&prop) {
                props.push((p.attr("itemprop").map(String::from), p.text().collect::<String>()));
            }
            out.push((element.attr("itemtype").map(String::from), props));
        }
    }
    out
}

/// Calls `serde_json::from_str::<serde_json::Value>`; an error is handed back as
/// its message. Claimed: the call succeeds exactly when `json_valid` holds of the
/// text; the value itself is left unstated.
#[verifier::external_body]
fn parse_json_value(text: &str) -> (r: Result<serde_json::Value, String>)
    ensures
        r is Ok <==> json_valid(text@),
{
    serde_json::from_str::<serde_json::Value>(text).map_err(|e| e.to_string())
}

/// The value of an optional attribute, empty when it is absent.
pub open spec fn attr_or_empty(a: Option<Seq<char>>) -> Seq<char> {
    match a {
        Some(v) => v,
        None => Seq::empty(),
    }
}

/// The values of each property name, in document order.
pub open spec fn grouped_props(ps: Seq<(Option<Seq<char>>, Seq<char>)>) -> Map<Seq<char>, Seq<Seq<char>>>
    decreases ps.len(),
{
    if ps.len() == 0 {
        Map::empty()
    } else {
        let g = grouped_props(ps.drop_last());
        let k = attr_or_empty(ps.last().0);
        let prev = if g.contains_key(k) {
            g[k]
        } else {
            Seq::empty()
        };
        g.insert(k, prev.push(ps.last().1))
    }
}

/// The property map of a microdata item, as values.
pub open spec fn props_view(m: StrMap<Vec<String>>) -> Map<Seq<char>, Seq<Seq<char>>> {
    m@.map_values(|v: Vec<String>| v@.map_values(|s: String| s@))
}

/// Groups the properties of one microdata element by name.
pub fn group_properties(props: &Vec<(Option<String>, String)>) -> (r: StrMap<Vec<String>>)
    ensures
        props_view(r) == grouped_props(props@.map_values(|p: (Option<String>, String)| raw_prop_view(p))),
{
    let ghost view = props@.map_values(|p: (Option<String>, String)| raw_prop_view(p));
    let mut m: StrMap<Vec<String>> = StrMap::new();
    let mut i: usize = 0;
    assert(props_view(m) =~= grouped_props(view.take(0)));
    while i < props.len()
        invariant
            i <= props@.len(),
            view == props@.map_values(|p: (Option<String>, String)| raw_prop_view(p)),
            props_view(m) == grouped_props(view.take(i as int)),
        decreases props.len() - i,
    {
        let key = match &props[i].0 {
            Some(k) => k.clone(),
            None => String::new(),
        };
        let value = props[i].1.clone();
        let ghost before = props_view(m);
        let ghost old_m = m@;
        let removed = m.remove(key.as_str());
        let mut values = match removed {
            Some(v) => v,
            None => Vec::new(),
        };
        let ghost start = values@;
        values.push(value);
        m.insert(key, values);
        proof {
            let t = view.take(i + 1);
            assert(t.drop_last() =~= view.take(i as int));
            assert(t.last() == raw_prop_view(props@[i as int]));
            let k = attr_or_empty(t.last().0);
            let g = grouped_props(view.take(i as int));
            assert(g == before);
            let prev = if g.contains_key(k) {
                g[k]
            } else {
                Seq::<Seq<char>>::empty()
            };
            assert(start.map_values(|s: String| s@) =~= prev);
            assert(m@[k]@.map_values(|s: String| s@) =~= prev.push(t.last().1));
            assert(props_view(m) =~= g.insert(k, prev.push(t.last().1)));
        }
        i = i + 1;
    }
    assert(view.take(props@.len() as int) =~= view);
    m
}

/// Semantic data extracted from HTML content.
#[derive(Debug)]
pub struct SemanticData {
    /// Text of the page's `<title>`, if it has one.
    pub title: Option<String>,
    /// Microdata items of the page.
    pub microdata: Vec<MicrodataItem>,
    /// JSON-LD objects of the page.
    pub json_ld: Vec<serde_json::Value>,
}

/// Why a page could not be read.
#[derive(Debug, Clone, PartialEq, Eq)]
pub enum ParseError {
    /// The security check refused the page, with this message.
    Rejected(&'static str),
    /// A JSON-LD block is not valid JSON; the reader's message.
    InvalidJsonLd(String),
}

/// A microdata item as values: type and grouped properties.
pub open spec fn item_view(it: MicrodataItem) -> (Seq<char>, Map<Seq<char>, Seq<Seq<char>>>) {
    (it.item_type@, props_view(it.properties))
}

/// The microdata items of a page, as values.
pub open spec fn page_microdata(html: Seq<char>) -> Seq<(Seq<char>, Map<Seq<char>, Seq<Seq<char>>>)> {
    html_microdata_raw(html).map_values(
        |it: (Option<Seq<char>>, Seq<(Option<Seq<char>>, Seq<char>)>)| (attr_or_empty(it.0), grouped_props(it.1)),
    )
}

/// Reads the title, microdata items and JSON-LD blocks of a page, after the
/// security check of [`validate_html_input`]. The page is refused when the check
/// refuses it, and when one of its JSON-LD blocks is not valid JSON.
pub fn parse_html(html: &str) -> (r: Result<SemanticData, ParseError>)
    ensures
        match html_rejection(html.len() as nat, lowercased(html@)) {
            Some(why) => r == Err::<SemanticData, ParseError>(ParseError::Rejected(html_message(why))),
            None => {
                &&& (r is Ok) <==> forall|k: int| 0 <= k < html_json_ld_texts(html@).len() ==> json_valid(
                    #[trigger] html_json_ld_texts(html@)[k],
                )
                &&& (r is Err ==> r matches Err(ParseError::InvalidJsonLd(_)))
                &&& (r matches Ok(d) ==> {
                    &&& opt_text(d.title) == html_title_text(html@)
                    &&& d.json_ld@.len() == html_json_ld_texts(html@).len()
                    &&& d.microdata@.map_values(|it: MicrodataItem| item_view(it)) == page_microdata(html@)
                })
            },
        },
{
    if let Err(msg) = validate_html_input(html) {
        return Err(ParseError::Rejected(msg));
    }
    let title = title_text(html);
    let texts = json_ld_texts(html);
    let ghost tv = texts@.map_values(|s: String| s@);
    let mut json_ld: Vec<serde_json::Value> = Vec::new();
    let mut i: usize = 0;
    while i < texts.len()
        invariant
            i <= texts@.len(),
            tv == texts@.map_values(|s: String| s@),
            tv == html_json_ld_texts(html@),
            html_rejection(html.len() as nat, lowercased(html@)) is None,
            json_ld@.len() == i,
            forall|k: int| 0 <= k < i ==> json_valid(#[trigger] tv[k]),
        decreases texts.len() - i,
    {
        match parse_json_value(texts[i].as_str()) {
            Ok(v) => json_ld.push(v),
            Err(e) => {
                assert(!json_valid(html_json_ld_texts(html@)[i as int]));
                return Err(ParseError::InvalidJsonLd(e));
            },
        }
        i = i + 1;
    }
    assert forall|k: int| 0 <= k < html_json_ld_texts(html@).len() implies json_valid(
        #[trigger] html_json_ld_texts(html@)[k],
    ) by {
        assert(tv[k] == html_json_ld_texts(html@)[k]);
    }
    let raw = microdata_raw(html);
    let ghost rv = raw@.map_values(|it: (Option<String>, Vec<(Option<String>, String)>)| raw_item_view(it));
    let mut microdata: Vec<MicrodataItem> = Vec::new();
    let mut j: usize = 0;
    while j < raw.len()
        invariant
            j <= raw@.len(),
            rv == raw@.map_values(|it: (Option<String>, Vec<(Option<String>, String)>)| raw_item_view(it)),
            rv == html_microdata_raw(html@),
            microdata@.len() == j,
            forall|k: int| 0 <= k < j ==> item_view(#[trigger] microdata@[k]) == (attr_or_empty(rv[k].0), grouped_props(rv[k].1)),
        decreases raw.len() - j,
    {
        let item_type = match &raw[j].0 {
            Some(t) => t.clone(),
            None => String::new(),
        };
        let properties = group_properties(&raw[j].1);
        microdata.push(MicrodataItem { item_type, properties });
        j = j + 1;
    }
    assert(microdata@.map_values(|it: MicrodataItem| item_view(it)) =~= page_microdata(html@));
    Ok(SemanticData { title, microdata, json_ld })
}

/// How many of the texts `ts` the JSON reader accepts.
pub open spec fn accepted_count(ts: Seq<Seq<char>>) -> nat
    decreases ts.len(),
{
    if ts.len() == 0 {
        0
    } else {
        accepted_count(ts.drop_last()) + if json_valid(ts.last()) {
            1nat
        } else {
            0nat
        }
    }
}

/// Reads a fetched page without the security check: its title, microdata items,
/// and the JSON-LD blocks that are valid JSON (the others are skipped).
pub fn extract_page(html: &str) -> (r: SemanticData)
    ensures
        opt_text(r.title) == html_title_text(html@),
        r.json_ld@.len() == accepted_count(html_json_ld_texts(html@)),
        r.microdata@.map_values(|it: MicrodataItem| item_view(it)) == page_microdata(html@),
{
    let title = title_text(html);
    let texts = json_ld_texts(html);
    let ghost tv = texts@.map_values(|s: String| s@);
    let mut json_ld: Vec<serde_json::Value> = Vec::new();
    let mut i: usize = 0;
    while i < texts.len()
        invariant
            i <= texts@.len(),
            tv == texts@.map_values(|s: String| s@),
            json_ld@.len() == accepted_count(tv.take(i as int)),
        decreases texts.len() - i,
    {
        let ok = match parse_json_value(texts[i].as_str()) {
            Ok(v) => {
                json_ld.push(v);
                true
            },
            Err(_) => false,
        };
        proof {
            let t = tv.take(i + 1);
            assert(t.drop_last() =~= tv.take(i as int));
            assert(t.last() == texts@[i as int]@);
        }
        i = i + 1;
    }
    assert(tv.take(tv.len() as int) =~= tv);
    let raw = microdata_raw(html);
    let ghost rv = raw@.map_values(|it: (Option<String>, Vec<(Option<String>, String)>)| raw_item_view(it));
    let mut microdata: Vec<MicrodataItem> = Vec::new();
    let mut j: usize = 0;
    while j < raw.len()
        invariant
            j <= raw@.len(),
            rv == raw@.map_values(|it: (Option<String>, Vec<(Option<String>, String)>)| raw_item_view(it)),
            rv == html_microdata_raw(html@),
            microdata@.len() == j,
            forall|k: int| 0 <= k < j ==> item_view(#[trigger] microdata@[k]) == (attr_or_empty(rv[k].0), grouped_props(rv[k].1)),
        decreases raw.len() - j,
    {
        let item_type = match &raw[j].0 {
            Some(t) => t.clone(),
            None => String::new(),
        };
        let properties = group_properties(&raw[j].1);
        microdata.push(MicrodataItem { item_type, properties });
        j = j + 1;
    }
    assert(microdata@.map_values(|it: MicrodataItem| item_view(it)) =~= page_microdata(html@));
    SemanticData { title, microdata, json_ld }
}

/// One line per microdata item: its type and its number of property names.
pub open spec fn item_lines(items: Seq<MicrodataItem>) -> Seq<char>
    decreases items.len(),
{
    if items.len() == 0 {
        Seq::empty()
    } else {
        let it = items.last();
        item_lines(items.drop_last()) + "- "@ + it.item_type@ + ": "@ + decimal(it.properties@.len()) + "\n"@
    }
}

/// The report on a browsed page: the URL and query, the title when there is one,
/// the numbers of JSON-LD objects and microdata items, and a line per item.
pub open spec fn browse_report_text(url: Seq<char>, query: Seq<char>, d: SemanticData) -> Seq<char> {
    "Browsed "@ + url + " with query '"@ + query + "'\n"@ + match d.title {
        Some(t) => "Title: "@ + t@ + "\n"@,
        None => Seq::empty(),
    } + "JSON-LD objects: "@ + decimal(d.json_ld@.len()) + "\n"@ + "Microdata items: "@ + decimal(
        d.microdata@.len(),
    ) + "\n"@ + item_lines(d.microdata@)
}

/// Reports on a page fetched from `url` for `query`.
pub fn browse_report(url: &str, query: &str, html: &str) -> (r: String)
    ensures
        exists|d: SemanticData| {
            &&& opt_text(d.title) == html_title_text(html@)
            &&& d.json_ld@.len() == accepted_count(html_json_ld_texts(html@))
            &&& d.microdata@.map_values(|it: MicrodataItem| item_view(it)) == page_microdata(html@)
            &&& r@ == #[trigger] browse_report_text(url@, query@, d)
        },
{
    let d = extract_page(html);
    let mut s = "Browsed ".to_owned();
    push_str(&mut s, url);
    push_str(&mut s, " with query '");
    push_str(&mut s, query);
    push_str(&mut s, "'\n");
    if let Some(t) = &d.title {
        push_str(&mut s, "Title: ");
        push_str(&mut s, t.as_str());
        push_str(&mut s, "\n");
    }
    push_str(&mut s, "JSON-LD objects: ");
    push_str(&mut s, decimal_string(d.json_ld.len()).as_str());
    push_str(&mut s, "\n");
    push_str(&mut s, "Microdata items: ");
    push_str(&mut s, decimal_string(d.microdata.len()).as_str());
    push_str(&mut s, "\n");
    let ghost head = s@;
    let mut k: usize = 0;
    while k < d.microdata.len()
        invariant
            k <= d.microdata@.len(),
            s@ == head + item_lines(d.microdata@.take(k as int)),
        decreases d.microdata.len() - k,
    {
        let it = &d.microdata[k];
        push_str(&mut s, "- ");
        push_str(&mut s, it.item_type.as_str());
        push_str(&mut s, ": ");
        push_str(&mut s, decimal_string(it.properties.len()).as_str());
        push_str(&mut s, "\n");
        proof {
            let t = d.microdata@.take(k + 1);
            assert(t.drop_last() =~= d.microdata@.take(k as int));
            assert(t.last() == d.microdata@[k as int]);
            assert(s@ =~= head + item_lines(t));
        }
        k = k + 1;
    }
    assert(d.microdata@.take(d.microdata@.len() as int) =~= d.microdata@);
    assert(s@ =~= browse_report_text(url@, query@, d));
    s
}

} // verus!
