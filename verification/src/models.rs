//! What browsing a page yields: structured-data summaries and a semantic snapshot.
use vstd::prelude::*;
use crate::strmap::StrMap;

verus! {

/// Summary of one microdata item: its type and how many properties it has.
#[derive(Debug, Clone)]
pub struct MicrodataSummary {
    /// The schema.org item type (e.g., "https://schema.org/Product", "Person").
    pub item_type: String,
    /// Number of properties defined for this microdata item.
    pub properties: usize,
}

/// A single microdata item extracted from HTML.
#[derive(Debug)]
pub struct MicrodataItem {
    /// The item type URL (e.g., "https://schema.org/Person").
    pub item_type: String,
    /// Property names and their values.
    pub properties: StrMap<Vec<String>>,
}

impl MicrodataItem {
    /// The item's type and its number of properties.
    pub fn summary(&self) -> (r: MicrodataSummary)
        ensures
            r.item_type@ == self.item_type@,
            r.properties == self.properties@.len(),
    {
        MicrodataSummary { item_type: self.item_type.clone(), properties: self.properties.len() }
    }
}

/// A passage that matched a query, with its score already written with two
/// decimals.
#[derive(Debug, Clone)]
pub struct QueryMention {
    /// The text excerpt that contains the matching query tokens.
    pub excerpt: String,
    /// The HTML element type where the match was found (e.g., "h1", "p").
    pub element: String,
    /// The relevance score, formatted with two decimals (e.g., "0.75").
    pub score_text: String,
}

/// Snapshot of the semantic information extracted from a web page.
#[derive(Debug, Clone)]
pub struct SemanticSnapshot {
    /// Page title.
    pub title: Option<String>,
    /// Page description.
    pub description: Option<String>,
    /// Language of the page content.
    pub language: Option<String>,
    /// Canonical URL as given by `rel="canonical"`.
    pub canonical_url: Option<String>,
    /// URL after redirects.
    pub final_url: String,
    /// Keywords of the page.
    pub keywords: Vec<String>,
    /// Open Graph properties (without the `og:` prefix) and their values.
    pub open_graph: Vec<(String, String)>,
    /// Twitter Card properties (without the `twitter:` prefix) and their values.
    pub twitter_card: Vec<(String, String)>,
    /// Number of JSON-LD objects found on the page.
    pub json_ld_count: usize,
    /// Microdata items found on the page.
    pub microdata: Vec<MicrodataSummary>,
    /// Short text preview of the page content.
    pub text_preview: String,
    /// Length in bytes of the extracted text content.
    pub text_length: usize,
    /// Passages that matched the query, if one was applied.
    pub query_matches: Vec<QueryMention>,
}

} // verus!
