//! Which RDF triples describe a browsed page, and the text preview of a page.
//!
//! [`snapshot_triples`] lists, in order, the statements that the knowledge graph
//! receives about a page; storing them is the graph's business.
use vstd::prelude::*;
use crate::kg::{decimal, decimal_string, is_valid_iri, object_iris_valid, stored_object, valid_iri, KgError, KnowledgeGraph};
use crate::models::{MicrodataSummary, QueryMention, SemanticSnapshot};
use crate::text::{chars_of, has_prefix, is_empty_text, is_whitespace, is_ws, matches_at_exec, push_str, str_eq, string_of};

verus! {

/// The object of a triple.
#[derive(Debug, Clone)]
pub enum TripleObject {
    /// An IRI.
    Iri(String),
    /// A plain literal.
    Literal(String),
    /// A literal with a language tag.
    LangLiteral { value: String, lang: String },
    /// A literal of a datatype (an IRI).
    TypedLiteral { value: String, datatype: String },
    /// A value that looks like a web address: stored as an IRI when the graph
    /// accepts it as one, else as a plain literal.
    IriOrLiteral(String),
}

/// The characters that a triple object holds.
pub enum ObjectText {
    Iri(Seq<char>),
    Literal(Seq<char>),
    LangLiteral(Seq<char>, Seq<char>),
    TypedLiteral(Seq<char>, Seq<char>),
    IriOrLiteral(Seq<char>),
}

impl View for TripleObject {
    type V = ObjectText;

    open spec fn view(&self) -> ObjectText {
        match self {
            TripleObject::Iri(s) => ObjectText::Iri(s@),
            TripleObject::Literal(s) => ObjectText::Literal(s@),
            TripleObject::LangLiteral { value, lang } => ObjectText::LangLiteral(value@, lang@),
            TripleObject::TypedLiteral { value, datatype } => ObjectText::TypedLiteral(value@, datatype@),
            TripleObject::IriOrLiteral(s) => ObjectText::IriOrLiteral(s@),
        }
    }
}

/// A statement about a subject.
#[derive(Debug, Clone)]
pub struct Triple {
    pub subject: String,
    pub predicate: String,
    pub object: TripleObject,
}

/// A triple as characters: subject, predicate and object.
pub type TripleText = (Seq<char>, Seq<char>, ObjectText);

impl View for Triple {
    type V = TripleText;

    open spec fn view(&self) -> TripleText {
        (self.subject@, self.predicate@, self.object@)
    }
}

/// The triples `ts` as characters.
pub open spec fn triples_text(ts: Seq<Triple>) -> Seq<TripleText> {
    ts.map_values(|t: Triple| t@)
}

/// A text value, language-tagged when the page has a language.
pub open spec fn text_object(v: Seq<char>, lang: Option<String>) -> ObjectText {
    match lang {
        Some(l) => ObjectText::LangLiteral(v, l@),
        None => ObjectText::Literal(v),
    }
}

/// A value that may be a web address.
pub open spec fn web_object(v: Seq<char>) -> ObjectText {
    if has_prefix(v, "http://"@) || has_prefix(v, "https://"@) {
        ObjectText::IriOrLiteral(v)
    } else {
        ObjectText::Literal(v)
    }
}

/// An `xsd:integer` literal of `n`.
pub open spec fn count_object(n: nat) -> ObjectText {
    ObjectText::TypedLiteral(decimal(n), "http://www.w3.org/2001/XMLSchema#integer"@)
}

/// One triple about `base`, or none.
pub open spec fn optional_triple(base: Seq<char>, p: Seq<char>, o: Option<ObjectText>) -> Seq<TripleText> {
    match o {
        Some(obj) => seq![(base, p, obj)],
        None => Seq::empty(),
    }
}

/// The triples for properties `props` (key, value) under the namespace `ns`.
pub open spec fn property_triples(base: Seq<char>, ns: Seq<char>, props: Seq<(String, String)>) -> Seq<TripleText>
    decreases props.len(),
{
    if props.len() == 0 {
        Seq::empty()
    } else {
        let kv = props.last();
        property_triples(base, ns, props.drop_last()).push((base, ns + kv.0@, web_object(kv.1@)))
    }
}

/// The triples for keywords.
pub open spec fn keyword_triples(base: Seq<char>, kws: Seq<String>) -> Seq<TripleText>
    decreases kws.len(),
{
    if kws.len() == 0 {
        Seq::empty()
    } else {
        keyword_triples(base, kws.drop_last()).push(
            (base, "https://schema.org/keywords"@, ObjectText::Literal(kws.last()@)),
        )
    }
}

/// The triples for one microdata item: its type when it has one, and its number
/// of properties.
pub open spec fn item_triples(base: Seq<char>, m: MicrodataSummary) -> Seq<TripleText> {
    let type_triple = if m.item_type@.len() > 0 {
        seq![(base, "https://schema.org/itemType"@, ObjectText::Literal(m.item_type@))]
    } else {
        Seq::empty()
    };
    type_triple.push((base, "https://schema.org/numberOfProperties"@, count_object(m.properties as nat)))
}

/// The triples for microdata items.
pub open spec fn microdata_triples(base: Seq<char>, ms: Seq<MicrodataSummary>) -> Seq<TripleText>
    decreases ms.len(),
{
    if ms.len() == 0 {
        Seq::empty()
    } else {
        microdata_triples(base, ms.drop_last()) + item_triples(base, ms.last())
    }
}

/// How a query match is mentioned.
pub open spec fn mention_text(m: QueryMention) -> Seq<char> {
    m.excerpt@ + " (element="@ + m.element@ + ", score="@ + m.score_text@ + ")"@
}

/// The triples for query matches.
pub open spec fn mention_triples(base: Seq<char>, ms: Seq<QueryMention>) -> Seq<TripleText>
    decreases ms.len(),
{
    if ms.len() == 0 {
        Seq::empty()
    } else {
        mention_triples(base, ms.drop_last()).push(
            (base, "https://schema.org/mentions"@, ObjectText::Literal(mention_text(ms.last()))),
        )
    }
}

/// The triples of the page's own metadata: title, description, keywords,
/// language, canonical URL and final URL.
pub open spec fn metadata_triples(s: SemanticSnapshot, base: Seq<char>) -> Seq<TripleText> {
    optional_triple(
        base,
        "http://purl.org/dc/terms/title"@,
        match s.title {
            Some(t) => Some(text_object(t@, s.language)),
            None => None,
        },
    ) + optional_triple(
        base,
        "http://purl.org/dc/terms/description"@,
        match s.description {
            Some(d) => Some(text_object(d@, s.language)),
            None => None,
        },
    ) + keyword_triples(base, s.keywords@) + optional_triple(
        base,
        "http://purl.org/dc/terms/language"@,
        match s.language {
            Some(l) => Some(ObjectText::Literal(l@)),
            None => None,
        },
    ) + match s.canonical_url {
        Some(c) => seq![
            (base, "http://purl.org/dc/terms/identifier"@, ObjectText::Literal(c@)),
            (base, "http://purl.org/dc/terms/isVersionOf"@, ObjectText::Iri(c@)),
        ],
        None => Seq::empty(),
    } + if s.final_url@ != base {
        seq![(base, "http://purl.org/dc/terms/hasVersion"@, ObjectText::Literal(s.final_url@))]
    } else {
        Seq::empty()
    }
}

/// The triples of the page's structured data and content: Open Graph and Twitter
/// Card properties, counts of JSON-LD objects and microdata items, the microdata
/// items, the text preview and the query matches.
pub open spec fn content_triples(s: SemanticSnapshot, base: Seq<char>) -> Seq<TripleText> {
    property_triples(base, "http://ogp.me/ns#"@, s.open_graph@) + property_triples(
        base,
        "https://dev.twitter.com/cards/markup#"@,
        s.twitter_card@,
    ) + if s.json_ld_count > 0 {
        seq![(base, "https://schema.org/numberOfItems"@, count_object(s.json_ld_count as nat))]
    } else {
        Seq::empty()
    } + if s.microdata@.len() > 0 {
        seq![(base, "https://schema.org/numberOfItems"@, count_object(s.microdata@.len()))]
    } else {
        Seq::empty()
    } + microdata_triples(base, s.microdata@) + if s.text_preview@.len() > 0 {
        seq![(base, "https://schema.org/abstract"@, ObjectText::Literal(s.text_preview@))]
    } else {
        Seq::empty()
    } + mention_triples(base, s.query_matches@)
}

/// Every triple that describes a page, in order: its metadata, its content, the
/// query that led to it, and its type `schema:WebPage`.
pub open spec fn page_triples(s: SemanticSnapshot, base: Seq<char>, query: Option<Seq<char>>) -> Seq<TripleText> {
    metadata_triples(s, base) + content_triples(s, base) + optional_triple(
        base,
        "https://schema.org/query"@,
        match query {
            Some(q) => Some(ObjectText::Literal(q)),
            None => None,
        },
    ) + seq![
        (
            base,
            "http://www.w3.org/1999/02/22-rdf-syntax-ns#type"@,
            ObjectText::Iri("https://schema.org/WebPage"@),
        ),
    ]
}

/// The IRI of `dcterms:title`.
pub open spec fn dcterms_title() -> Seq<char> {
    "http://purl.org/dc/terms/title"@
}

/// A predicate that differs from `dcterms:title` at its eighth or its
/// twenty-sixth character.
pub open spec fn clearly_not_title(q: Seq<char>) -> bool {
    (q.len() > 7 && q[7] != 'p') || (q.len() > 25 && q[25] != 't')
}

/// No triple of `ts` has a predicate that could be `dcterms:title`.
pub open spec fn title_free(ts: Seq<TripleText>) -> bool {
    forall|k: int| 0 <= k < ts.len() ==> clearly_not_title(#[trigger] ts[k].1)
}

proof fn lemma_clearly_not_title(q: Seq<char>)
    requires
        clearly_not_title(q),
    ensures
        q != dcterms_title(),
{
    reveal_strlit("http://purl.org/dc/terms/title");
}

proof fn lemma_title_free_concat(a: Seq<TripleText>, b: Seq<TripleText>)
    requires
        title_free(a),
        title_free(b),
    ensures
        title_free(a + b),
{
    assert forall|k: int| 0 <= k < (a + b).len() implies clearly_not_title(#[trigger] (a + b)[k].1) by {
        if k < a.len() {
            assert((a + b)[k] == a[k]);
        } else {
            assert((a + b)[k] == b[k - a.len()]);
        }
    }
}

proof fn lemma_one_title_free(t: TripleText)
    requires
        clearly_not_title(t.1),
    ensures
        title_free(seq![t]),
{
}

proof fn lemma_optional_title_free(base: Seq<char>, p: Seq<char>, o: Option<ObjectText>)
    requires
        clearly_not_title(p),
    ensures
        title_free(optional_triple(base, p, o)),
{
}

proof fn lemma_keywords_title_free(base: Seq<char>, kws: Seq<String>)
    ensures
        title_free(keyword_triples(base, kws)),
    decreases kws.len(),
{
    reveal_strlit("https://schema.org/keywords");
    if kws.len() > 0 {
        lemma_keywords_title_free(base, kws.drop_last());
    }
}

proof fn lemma_properties_title_free(base: Seq<char>, ns: Seq<char>, props: Seq<(String, String)>)
    requires
        ns.len() > 7,
        ns[7] != 'p',
    ensures
        title_free(property_triples(base, ns, props)),
    decreases props.len(),
{
    if props.len() > 0 {
        lemma_properties_title_free(base, ns, props.drop_last());
        assert((ns + props.last().0@)[7] == ns[7]);
    }
}

proof fn lemma_microdata_title_free(base: Seq<char>, ms: Seq<MicrodataSummary>)
    ensures
        title_free(microdata_triples(base, ms)),
    decreases ms.len(),
{
    reveal_strlit("https://schema.org/itemType");
    reveal_strlit("https://schema.org/numberOfProperties");
    if ms.len() > 0 {
        lemma_microdata_title_free(base, ms.drop_last());
        lemma_title_free_concat(microdata_triples(base, ms.drop_last()), item_triples(base, ms.last()));
    }
}

proof fn lemma_mentions_title_free(base: Seq<char>, ms: Seq<QueryMention>)
    ensures
        title_free(mention_triples(base, ms)),
    decreases ms.len(),
{
    reveal_strlit("https://schema.org/mentions");
    if ms.len() > 0 {
        lemma_mentions_title_free(base, ms.drop_last());
    }
}

/// Law: the page's description, when it has one, is stated with the predicate
/// `dcterms:description` (in the page's language when it has one), and a page
/// without a title gets no `dcterms:title` triple.
pub proof fn law_description_and_title_triples(s: SemanticSnapshot, base: Seq<char>, query: Option<Seq<char>>)
    ensures
        s.description matches Some(d) ==> page_triples(s, base, query).contains(
            (base, "http://purl.org/dc/terms/description"@, text_object(d@, s.language)),
        ),
        s.title is None ==> forall|k: int|
            0 <= k < page_triples(s, base, query).len() ==> #[trigger] page_triples(s, base, query)[k].1
                != dcterms_title(),
{
    let ts = page_triples(s, base, query);
    let t1 = optional_triple(
        base,
        "http://purl.org/dc/terms/title"@,
        match s.title {
            Some(t) => Some(text_object(t@, s.language)),
            None => None,
        },
    );
    if s.description is Some {
        let d = s.description.unwrap();
        let i = t1.len() as int;
        assert(ts[i] == (base, "http://purl.org/dc/terms/description"@, text_object(d@, s.language)));
    }
    if s.title is None {
        reveal_strlit("http://purl.org/dc/terms/description");
        reveal_strlit("http://purl.org/dc/terms/language");
        reveal_strlit("http://purl.org/dc/terms/identifier");
        reveal_strlit("http://purl.org/dc/terms/isVersionOf");
        reveal_strlit("http://purl.org/dc/terms/hasVersion");
        reveal_strlit("http://ogp.me/ns#");
        reveal_strlit("https://dev.twitter.com/cards/markup#");
        reveal_strlit("https://schema.org/numberOfItems");
        reveal_strlit("https://schema.org/abstract");
        reveal_strlit("https://schema.org/query");
        reveal_strlit("http://www.w3.org/1999/02/22-rdf-syntax-ns#type");
        // the metadata
        let d = optional_triple(
            base,
            "http://purl.org/dc/terms/description"@,
            match s.description {
                Some(d) => Some(text_object(d@, s.language)),
                None => None,
            },
        );
        lemma_optional_title_free(base, "http://purl.org/dc/terms/description"@, match s.description {
            Some(d) => Some(text_object(d@, s.language)),
            None => None,
        });
        lemma_keywords_title_free(base, s.keywords@);
        let l = optional_triple(
            base,
            "http://purl.org/dc/terms/language"@,
            match s.language {
                Some(l) => Some(ObjectText::Literal(l@)),
                None => None,
            },
        );
        lemma_optional_title_free(base, "http://purl.org/dc/terms/language"@, match s.language {
            Some(l) => Some(ObjectText::Literal(l@)),
            None => None,
        });
        let c: Seq<TripleText> = match s.canonical_url {
            Some(c) => seq![
                (base, "http://purl.org/dc/terms/identifier"@, ObjectText::Literal(c@)),
                (base, "http://purl.org/dc/terms/isVersionOf"@, ObjectText::Iri(c@)),
            ],
            None => Seq::empty(),
        };
        let v: Seq<TripleText> = if s.final_url@ != base {
            seq![(base, "http://purl.org/dc/terms/hasVersion"@, ObjectText::Literal(s.final_url@))]
        } else {
            Seq::empty()
        };
        assert(title_free(t1));
        assert(title_free(c));
        assert(title_free(v));
        lemma_title_free_concat(t1, d);
        lemma_title_free_concat(t1 + d, keyword_triples(base, s.keywords@));
        lemma_title_free_concat(t1 + d + keyword_triples(base, s.keywords@), l);
        lemma_title_free_concat(t1 + d + keyword_triples(base, s.keywords@) + l, c);
        lemma_title_free_concat(t1 + d + keyword_triples(base, s.keywords@) + l + c, v);
        assert(metadata_triples(s, base) == t1 + d + keyword_triples(base, s.keywords@) + l + c + v);
        // the content
        let og = property_triples(base, "http://ogp.me/ns#"@, s.open_graph@);
        let tw = property_triples(base, "https://dev.twitter.com/cards/markup#"@, s.twitter_card@);
        lemma_properties_title_free(base, "http://ogp.me/ns#"@, s.open_graph@);
        lemma_properties_title_free(base, "https://dev.twitter.com/cards/markup#"@, s.twitter_card@);
        let jc: Seq<TripleText> = if s.json_ld_count > 0 {
            seq![(base, "https://schema.org/numberOfItems"@, count_object(s.json_ld_count as nat))]
        } else {
            Seq::empty()
        };
        let mc: Seq<TripleText> = if s.microdata@.len() > 0 {
            seq![(base, "https://schema.org/numberOfItems"@, count_object(s.microdata@.len()))]
        } else {
            Seq::empty()
        };
        let md = microdata_triples(base, s.microdata@);
        lemma_microdata_title_free(base, s.microdata@);
        let ab: Seq<TripleText> = if s.text_preview@.len() > 0 {
            seq![(base, "https://schema.org/abstract"@, ObjectText::Literal(s.text_preview@))]
        } else {
            Seq::empty()
        };
        let mn = mention_triples(base, s.query_matches@);
        lemma_mentions_title_free(base, s.query_matches@);
        assert(title_free(jc));
        assert(title_free(mc));
        assert(title_free(ab));
        lemma_title_free_concat(og, tw);
        lemma_title_free_concat(og + tw, jc);
        lemma_title_free_concat(og + tw + jc, mc);
        lemma_title_free_concat(og + tw + jc + mc, md);
        lemma_title_free_concat(og + tw + jc + mc + md, ab);
        lemma_title_free_concat(og + tw + jc + mc + md + ab, mn);
        assert(content_triples(s, base) == og + tw + jc + mc + md + ab + mn);
        // the query and the type
        let q = optional_triple(
            base,
            "https://schema.org/query"@,
            match query {
                Some(q) => Some(ObjectText::Literal(q)),
                None => None,
            },
        );
        lemma_optional_title_free(base, "https://schema.org/query"@, match query {
            Some(q) => Some(ObjectText::Literal(q)),
            None => None,
        });
        let ty: Seq<TripleText> = seq![
            (base, "http://www.w3.org/1999/02/22-rdf-syntax-ns#type"@, ObjectText::Iri("https://schema.org/WebPage"@)),
        ];
        assert(title_free(ty));
        lemma_title_free_concat(metadata_triples(s, base), content_triples(s, base));
        lemma_title_free_concat(metadata_triples(s, base) + content_triples(s, base), q);
        lemma_title_free_concat(metadata_triples(s, base) + content_triples(s, base) + q, ty);
        assert(ts == metadata_triples(s, base) + content_triples(s, base) + q + ty);
        assert forall|k: int| 0 <= k < ts.len() implies #[trigger] ts[k].1 != dcterms_title() by {
            lemma_clearly_not_title(ts[k].1);
        }
    }
}

/// Appends the triple (`base`, `predicate`, `object`).
fn push_triple(out: &mut Vec<Triple>, base: &str, predicate: &str, object: TripleObject)
    ensures
        triples_text(final(out)@) == triples_text(old(out)@).push((base@, predicate@, object@)),
{
    out.push(Triple { subject: base.to_owned(), predicate: predicate.to_owned(), object });
    assert(triples_text(out@) =~= triples_text(old(out)@).push((base@, predicate@, object@)));
}

/// A text value, language-tagged when the page has a language.
fn text_value(v: &String, lang: &Option<String>) -> (r: TripleObject)
    ensures
        r@ == text_object(v@, *lang),
{
    match lang {
        Some(l) => TripleObject::LangLiteral { value: v.clone(), lang: l.clone() },
        None => TripleObject::Literal(v.clone()),
    }
}

/// A value that may be a web address.
fn web_value(v: &String) -> (r: TripleObject)
    ensures
        r@ == web_object(v@),
{
    let c = chars_of(v.as_str());
    let http = chars_of("http://");
    let https = chars_of("https://");
    if matches_at_exec(&c, &http, 0) || matches_at_exec(&c, &https, 0) {
        TripleObject::IriOrLiteral(v.clone())
    } else {
        TripleObject::Literal(v.clone())
    }
}

/// An `xsd:integer` literal of `n`.
fn count_value(n: usize) -> (r: TripleObject)
    ensures
        r@ == count_object(n as nat),
{
    TripleObject::TypedLiteral {
        value: decimal_string(n),
        datatype: "http://www.w3.org/2001/XMLSchema#integer".to_owned(),
    }
}

fn push_properties(out: &mut Vec<Triple>, base: &str, ns: &str, props: &Vec<(String, String)>)
    ensures
        triples_text(final(out)@) == triples_text(old(out)@) + property_triples(base@, ns@, props@),
{
    let mut i: usize = 0;
    while i < props.len()
        invariant
            i <= props@.len(),
            triples_text(out@) == triples_text(old(out)@) + property_triples(base@, ns@, props@.take(i as int)),
        decreases props.len() - i,
    {
        let mut predicate = ns.to_owned();
        push_str(&mut predicate, props[i].0.as_str());
        let object = web_value(&props[i].1);
        push_triple(out, base, predicate.as_str(), object);
        proof {
            let t = props@.take(i + 1);
            assert(t.drop_last() =~= props@.take(i as int));
            assert(t.last() == props@[i as int]);
        }
        i = i + 1;
    }
    assert(props@.take(props@.len() as int) =~= props@);
}

fn push_keywords(out: &mut Vec<Triple>, base: &str, kws: &Vec<String>)
    ensures
        triples_text(final(out)@) == triples_text(old(out)@) + keyword_triples(base@, kws@),
{
    let mut i: usize = 0;
    while i < kws.len()
        invariant
            i <= kws@.len(),
            triples_text(out@) == triples_text(old(out)@) + keyword_triples(base@, kws@.take(i as int)),
        decreases kws.len() - i,
    {
        push_triple(out, base, "https://schema.org/keywords", TripleObject::Literal(kws[i].clone()));
        proof {
            let t = kws@.take(i + 1);
            assert(t.drop_last() =~= kws@.take(i as int));
            assert(t.last() == kws@[i as int]);
        }
        i = i + 1;
    }
    assert(kws@.take(kws@.len() as int) =~= kws@);
}

fn push_microdata(out: &mut Vec<Triple>, base: &str, ms: &Vec<MicrodataSummary>)
    ensures
        triples_text(final(out)@) == triples_text(old(out)@) + microdata_triples(base@, ms@),
{
    let mut i: usize = 0;
    while i < ms.len()
        invariant
            i <= ms@.len(),
            triples_text(out@) == triples_text(old(out)@) + microdata_triples(base@, ms@.take(i as int)),
        decreases ms.len() - i,
    {
        let ghost before = triples_text(out@);
        let item = &ms[i];
        if !is_empty_text(item.item_type.as_str()) {
            push_triple(out, base, "https://schema.org/itemType", TripleObject::Literal(item.item_type.clone()));
        }
        push_triple(out, base, "https://schema.org/numberOfProperties", count_value(item.properties));
        proof {
            let t = ms@.take(i + 1);
            assert(t.drop_last() =~= ms@.take(i as int));
            assert(t.last() == ms@[i as int]);
            assert(triples_text(out@) =~= before + item_triples(base@, *item));
        }
        i = i + 1;
    }
    assert(ms@.take(ms@.len() as int) =~= ms@);
}

fn push_mentions(out: &mut Vec<Triple>, base: &str, ms: &Vec<QueryMention>)
    ensures
        triples_text(final(out)@) == triples_text(old(out)@) + mention_triples(base@, ms@),
{
    let mut i: usize = 0;
    while i < ms.len()
        invariant
            i <= ms@.len(),
            triples_text(out@) == triples_text(old(out)@) + mention_triples(base@, ms@.take(i as int)),
        decreases ms.len() - i,
    {
        let m = &ms[i];
        let mut mention = m.excerpt.clone();
        push_str(&mut mention, " (element=");
        push_str(&mut mention, m.element.as_str());
        push_str(&mut mention, ", score=");
        push_str(&mut mention, m.score_text.as_str());
        push_str(&mut mention, ")");
        push_triple(out, base, "https://schema.org/mentions", TripleObject::Literal(mention));
        proof {
            let t = ms@.take(i + 1);
            assert(t.drop_last() =~= ms@.take(i as int));
            assert(t.last() == ms@[i as int]);
        }
        i = i + 1;
    }
    assert(ms@.take(ms@.len() as int) =~= ms@);
}

#[verifier::rlimit(40)]
fn push_metadata(out: &mut Vec<Triple>, s: &SemanticSnapshot, base: &str)
    ensures
        triples_text(final(out)@) == triples_text(old(out)@) + metadata_triples(*s, base@),
{
    let ghost start = triples_text(out@);
    if let Some(title) = &s.title {
        push_triple(out, base, "http://purl.org/dc/terms/title", text_value(title, &s.language));
    }
    let ghost a = triples_text(out@);
    assert(a =~= start + optional_triple(base@, "http://purl.org/dc/terms/title"@, match s.title {
        Some(t) => Some(text_object(t@, s.language)),
        None => None,
    }));
    if let Some(desc) = &s.description {
        push_triple(out, base, "http://purl.org/dc/terms/description", text_value(desc, &s.language));
    }
    let ghost b = triples_text(out@);
    assert(b =~= a + optional_triple(base@, "http://purl.org/dc/terms/description"@, match s.description {
        Some(d) => Some(text_object(d@, s.language)),
        None => None,
    }));
    push_keywords(out, base, &s.keywords);
    let ghost c = triples_text(out@);
    if let Some(lang) = &s.language {
        push_triple(out, base, "http://purl.org/dc/terms/language", TripleObject::Literal(lang.clone()));
    }
    let ghost d = triples_text(out@);
    assert(d =~= c + optional_triple(base@, "http://purl.org/dc/terms/language"@, match s.language {
        Some(l) => Some(ObjectText::Literal(l@)),
        None => None,
    }));
    if let Some(canonical) = &s.canonical_url {
        push_triple(out, base, "http://purl.org/dc/terms/identifier", TripleObject::Literal(canonical.clone()));
        push_triple(out, base, "http://purl.org/dc/terms/isVersionOf", TripleObject::Iri(canonical.clone()));
    }
    let ghost e = triples_text(out@);
    assert(e =~= d + match s.canonical_url {
        Some(c) => seq![
            (base@, "http://purl.org/dc/terms/identifier"@, ObjectText::Literal(c@)),
            (base@, "http://purl.org/dc/terms/isVersionOf"@, ObjectText::Iri(c@)),
        ],
        None => Seq::empty(),
    });
    if !str_eq(s.final_url.as_str(), base) {
        push_triple(out, base, "http://purl.org/dc/terms/hasVersion", TripleObject::Literal(s.final_url.clone()));
    }
    assert(triples_text(out@) =~= start + metadata_triples(*s, base@));
}

fn push_content(out: &mut Vec<Triple>, s: &SemanticSnapshot, base: &str)
    ensures
        triples_text(final(out)@) == triples_text(old(out)@) + content_triples(*s, base@),
{
    let ghost start = triples_text(out@);
    push_properties(out, base, "http://ogp.me/ns#", &s.open_graph);
    push_properties(out, base, "https://dev.twitter.com/cards/markup#", &s.twitter_card);
    let ghost a = triples_text(out@);
    if s.json_ld_count > 0 {
        push_triple(out, base, "https://schema.org/numberOfItems", count_value(s.json_ld_count));
    }
    let ghost b = triples_text(out@);
    if s.microdata.len() > 0 {
        push_triple(out, base, "https://schema.org/numberOfItems", count_value(s.microdata.len()));
    }
    let ghost c = triples_text(out@);
    push_microdata(out, base, &s.microdata);
    let ghost d = triples_text(out@);
    if !is_empty_text(s.text_preview.as_str()) {
        push_triple(out, base, "https://schema.org/abstract", TripleObject::Literal(s.text_preview.clone()));
    }
    let ghost e = triples_text(out@);
    push_mentions(out, base, &s.query_matches);
    assert(triples_text(out@) =~= start + content_triples(*s, base@));
}

/// The triples that describe a page: the snapshot's statements about `base_url`,
/// and the query that led to it when there was one.
pub fn snapshot_triples(snapshot: &SemanticSnapshot, base_url: &str, query: Option<&str>) -> (r: Vec<Triple>)
    ensures
        triples_text(r@) == page_triples(
            *snapshot,
            base_url@,
            match query {
                Some(q) => Some(q@),
                None => None,
            },
        ),
{
    let mut out: Vec<Triple> = Vec::new();
    assert(triples_text(out@) =~= Seq::<TripleText>::empty());
    push_metadata(&mut out, snapshot, base_url);
    push_content(&mut out, snapshot, base_url);
    let ghost a = triples_text(out@);
    if let Some(q) = query {
        push_triple(&mut out, base_url, "https://schema.org/query", TripleObject::Literal(q.to_owned()));
    }
    push_triple(
        &mut out,
        base_url,
        "http://www.w3.org/1999/02/22-rdf-syntax-ns#type",
        TripleObject::Iri("https://schema.org/WebPage".to_owned()),
    );
    assert(triples_text(out@) =~= page_triples(
        *snapshot,
        base_url@,
        match query {
            Some(q) => Some(q@),
            None => None,
        },
    ));
    out
}

/// The object a triple of the plan is stored with: a value that may be a web
/// address becomes an IRI when it is a valid one, else a plain literal.
pub open spec fn applied_object(o: ObjectText) -> ObjectText {
    match o {
        ObjectText::IriOrLiteral(v) => if valid_iri(v) {
            ObjectText::Iri(v)
        } else {
            ObjectText::Literal(v)
        },
        _ => stored_object(o),
    }
}

/// A triple of the plan can be stored: its IRIs are valid.
pub open spec fn triple_storable(t: TripleText) -> bool {
    &&& valid_iri(t.0)
    &&& valid_iri(t.1)
    &&& match t.2 {
        ObjectText::IriOrLiteral(_) => true,
        o => object_iris_valid(o),
    }
}

/// The triples that storing the plan `ts` adds.
pub open spec fn applied_triples(ts: Seq<TripleText>) -> Set<TripleText> {
    ts.map_values(|t: TripleText| (t.0, t.1, applied_object(t.2))).to_set()
}

/// The characters of an optional text.
pub open spec fn opt_seq(o: Option<&str>) -> Option<Seq<char>> {
    match o {
        Some(q) => Some(q@),
        None => None,
    }
}

/// Stores one triple of the plan.
fn apply_triple(kg: &mut KnowledgeGraph, t: &Triple) -> (r: Result<(), KgError>)
    ensures
        r is Ok <==> triple_storable(t@),
        r is Ok ==> final(kg)@ == old(kg)@.insert((t@.0, t@.1, applied_object(t@.2))),
        r is Err ==> final(kg)@ == old(kg)@,
{
    let s = t.subject.as_str();
    let p = t.predicate.as_str();
    match &t.object {
        TripleObject::Iri(o) => kg.insert(s, p, o.as_str()),
        TripleObject::Literal(v) => kg.insert_literal(s, p, v.as_str()),
        TripleObject::LangLiteral { value, lang } => kg.insert_language_literal(s, p, value.as_str(), lang.as_str()),
        TripleObject::TypedLiteral { value, datatype } => kg.insert_typed_literal(s, p, value.as_str(), datatype.as_str()),
        TripleObject::IriOrLiteral(v) => {
            if kg.insert(s, p, v.as_str()).is_ok() {
                Ok(())
            } else {
                kg.insert_literal(s, p, v.as_str())
            }
        },
    }
}

/// Stores the triples that describe a page in the knowledge graph, and counts
/// them. It fails, at the first such triple, when one of them has an invalid IRI
/// (the base URL, or a property name that does not make a valid IRI); the graph
/// then holds what it held plus the triples stored before that one.
pub fn insert_snapshot_to_kg(
    snapshot: &SemanticSnapshot,
    kg: &mut KnowledgeGraph,
    base_url: &str,
    query: Option<&str>,
) -> (r: Result<usize, KgError>)
    ensures
        r is Ok <==> forall|k: int|
            0 <= k < page_triples(*snapshot, base_url@, opt_seq(query)).len() ==> triple_storable(
                #[trigger] page_triples(*snapshot, base_url@, opt_seq(query))[k],
            ),
        r matches Ok(n) ==> n == page_triples(*snapshot, base_url@, opt_seq(query)).len(),
        r is Ok ==> final(kg)@ == old(kg)@ + applied_triples(page_triples(*snapshot, base_url@, opt_seq(query))),
        !valid_iri(base_url@) ==> (r matches Err(KgError::InvalidIri(b)) && b@ == base_url@) && final(kg)@ == old(kg)@,
        r is Err && valid_iri(base_url@) ==> exists|i: int|
            #![trigger page_triples(*snapshot, base_url@, opt_seq(query)).take(i)]
            {
                let ts = page_triples(*snapshot, base_url@, opt_seq(query));
                &&& 0 <= i < ts.len()
                &&& !triple_storable(ts[i])
                &&& forall|k: int| 0 <= k < i ==> triple_storable(#[trigger] ts[k])
                &&& final(kg)@ == old(kg)@ + applied_triples(ts.take(i))
            },
{
    // Every triple is about the page: an invalid base URL fails the first one.
    if !is_valid_iri(base_url) {
        proof {
            let ts = page_triples(*snapshot, base_url@, opt_seq(query));
            assert(ts[ts.len() - 1].0 == base_url@);
            assert(!triple_storable(ts[ts.len() - 1]));
        }
        return Err(KgError::InvalidIri(base_url.to_owned()));
    }
    let triples = snapshot_triples(snapshot, base_url, query);
    let ghost ts = triples_text(triples@);
    let mut i: usize = 0;
    assert(applied_triples(ts.take(0)) =~= Set::<TripleText>::empty());
    assert(old(kg)@ + Set::<TripleText>::empty() =~= old(kg)@);
    while i < triples.len()
        invariant
            i <= triples@.len(),
            ts == triples_text(triples@),
            ts == page_triples(*snapshot, base_url@, opt_seq(query)),
            forall|k: int| 0 <= k < i ==> triple_storable(#[trigger] ts[k]),
            valid_iri(base_url@),
            kg@ == old(kg)@ + applied_triples(ts.take(i as int)),
        decreases triples.len() - i,
    {
        let ghost before = kg@;
        match apply_triple(kg, &triples[i]) {
            Ok(()) => {},
            Err(e) => {
                assert(!triple_storable(ts[i as int]));
                assert(ts.take(i as int) == page_triples(*snapshot, base_url@, opt_seq(query)).take(i as int));
                return Err(e);
            },
        }
        proof {
            let a = ts.take(i as int);
            let b = ts.take(i + 1);
            assert(b =~= a.push(ts[i as int]));
            let f = |t: TripleText| (t.0, t.1, applied_object(t.2));
            let am = a.map_values(f);
            let bm = b.map_values(f);
            assert(bm =~= am.push(f(ts[i as int])));
            assert forall|x: TripleText| bm.to_set().contains(x) <==> am.to_set().insert(f(ts[i as int])).contains(x) by {
                if bm.contains(x) {
                    let j = choose|j: int| 0 <= j < bm.len() && bm[j] == x;
                    if j < am.len() {
                        assert(am[j] == x);
                    }
                }
                if am.contains(x) {
                    let j = choose|j: int| 0 <= j < am.len() && am[j] == x;
                    assert(bm[j] == x);
                }
                if x == f(ts[i as int]) {
                    assert(bm[am.len() as int] == x);
                }
            }
            assert(bm.to_set() =~= am.to_set().insert(f(ts[i as int])));
            assert(kg@ =~= old(kg)@ + applied_triples(b));
        }
        i = i + 1;
    }
    assert(ts.take(ts.len() as int) =~= ts);
    Ok(triples.len())
}

/// Reading `s[0..n)` while collapsing whitespace: the text so far, and whether
/// whitespace was seen since its last character.
pub open spec fn collapse_upto(s: Seq<char>, n: nat) -> (Seq<char>, bool)
    decreases n,
{
    if n == 0 {
        (Seq::empty(), false)
    } else {
        let (out, gap) = collapse_upto(s, (n - 1) as nat);
        let c = s[n - 1];
        if is_ws(c) {
            (out, true)
        } else if gap && out.len() > 0 {
            (out.push(' ').push(c), false)
        } else {
            (out.push(c), false)
        }
    }
}

/// The words of `s` (its maximal runs of non-whitespace) joined by single spaces,
/// as `split_whitespace` and `join(" ")` make them.
pub open spec fn collapsed(s: Seq<char>) -> Seq<char> {
    collapse_upto(s, s.len()).0
}

/// How many characters a preview keeps.
pub const PREVIEW_CHARS: usize = 320;

/// The preview of a text: its collapsed words, cut to `PREVIEW_CHARS` characters
/// with `...` appended when they are longer.
pub open spec fn preview_of(text: Seq<char>) -> Seq<char> {
    let n = collapsed(text);
    if n.len() > PREVIEW_CHARS {
        n.take(PREVIEW_CHARS as int) + "..."@
    } else {
        n
    }
}

/// `t` is words separated by single spaces: its only whitespace is `' '`, it
/// neither starts nor ends with one, and no two are adjacent.
pub open spec fn single_spaced(t: Seq<char>) -> bool {
    &&& forall|k: int| 0 <= k < t.len() && is_ws(#[trigger] t[k]) ==> t[k] == ' '
    &&& t.len() > 0 ==> t[0] != ' ' && t.last() != ' '
    &&& forall|k: int| 0 <= k < t.len() - 1 && #[trigger] t[k] == ' ' ==> t[k + 1] != ' '
}

proof fn lemma_collapse_single_spaced(s: Seq<char>, n: nat)
    requires
        n <= s.len(),
    ensures
        single_spaced(collapse_upto(s, n).0),
    decreases n,
{
    if n > 0 {
        lemma_collapse_single_spaced(s, (n - 1) as nat);
        let (out, gap) = collapse_upto(s, (n - 1) as nat);
        let c = s[n - 1];
        if !is_ws(c) {
            if gap && out.len() > 0 {
                let r = out.push(' ').push(c);
                assert forall|k: int| 0 <= k < r.len() - 1 && #[trigger] r[k] == ' ' implies r[k + 1] != ' ' by {
                    if k < out.len() - 1 {
                        assert(r[k] == out[k] && r[k + 1] == out[k + 1]);
                    } else if k == out.len() - 1 {
                        assert(r[k] == out.last());
                    }
                }
                assert forall|k: int| 0 <= k < r.len() && is_ws(#[trigger] r[k]) implies r[k] == ' ' by {
                    if k < out.len() {
                        assert(r[k] == out[k]);
                    }
                }
            } else {
                let r = out.push(c);
                assert forall|k: int| 0 <= k < r.len() - 1 && #[trigger] r[k] == ' ' implies r[k + 1] != ' ' by {
                    if k < out.len() - 1 {
                        assert(r[k] == out[k] && r[k + 1] == out[k + 1]);
                    }
                }
                assert forall|k: int| 0 <= k < r.len() && is_ws(#[trigger] r[k]) implies r[k] == ' ' by {
                    if k < out.len() {
                        assert(r[k] == out[k]);
                    }
                }
            }
        }
    }
}

/// Law: a preview is at most `PREVIEW_CHARS` characters of single-spaced words,
/// followed by `...` exactly when the words were longer.
pub proof fn law_preview_shape(text: Seq<char>)
    ensures
        single_spaced(collapsed(text)),
        preview_of(text).len() <= PREVIEW_CHARS + 3,
        collapsed(text).len() <= PREVIEW_CHARS ==> preview_of(text) == collapsed(text),
{
    lemma_collapse_single_spaced(text, text.len());
    if collapsed(text).len() > PREVIEW_CHARS {
        reveal_strlit("...");
    }
}

/// The words of a text joined by single spaces, as characters.
fn collapsed_chars(text: &str) -> (r: Vec<char>)
    ensures
        r@ == collapsed(text@),
{
    let s = chars_of(text);
    let mut out: Vec<char> = Vec::new();
    let mut gap = false;
    let mut i: usize = 0;
    while i < s.len()
        invariant
            i <= s@.len(),
            s@ == text@,
            (out@, gap) == collapse_upto(s@, i as nat),
        decreases s.len() - i,
    {
        let c = s[i];
        if is_whitespace(c) {
            gap = true;
        } else {
            if gap && out.len() > 0 {
                out.push(' ');
            }
            out.push(c);
            gap = false;
        }
        i = i + 1;
    }
    out
}

/// The words of a text joined by single spaces.
pub fn collapse_whitespace(text: &str) -> (r: String)
    ensures
        r@ == collapsed(text@),
{
    let v = collapsed_chars(text);
    string_of(v.as_slice())
}

/// A short preview of a page's text.
pub fn build_preview(text: &str) -> (r: String)
    ensures
        r@ == preview_of(text@),
{
    let out = collapsed_chars(text);
    let keep = if out.len() > PREVIEW_CHARS {
        PREVIEW_CHARS
    } else {
        out.len()
    };
    let mut preview = String::new();
    let mut k: usize = 0;
    while k < keep
        invariant
            k <= keep <= out@.len(),
            preview@ == out@.take(k as int),
        decreases keep - k,
    {
        preview.push(out[k]);
        assert(out@.take(k + 1) =~= out@.take(k as int).push(out@[k as int]));
        k = k + 1;
    }
    if out.len() > PREVIEW_CHARS {
        push_str(&mut preview, "...");
    } else {
        assert(out@.take(keep as int) =~= out@);
    }
    preview
}

/// A copy of a text list.
fn copy_strings(v: &Vec<String>) -> (r: Vec<String>)
    ensures
        r@ == v@,
{
    let mut r: Vec<String> = Vec::new();
    let mut i: usize = 0;
    while i < v.len()
        invariant
            i <= v@.len(),
            r@ == v@.take(i as int),
        decreases v.len() - i,
    {
        r.push(v[i].clone());
        assert(v@.take(i + 1) =~= v@.take(i as int).push(v@[i as int]));
        i = i + 1;
    }
    assert(v@.take(v@.len() as int) =~= v@);
    r
}

/// A copy of a list of text pairs.
fn copy_pairs(v: &Vec<(String, String)>) -> (r: Vec<(String, String)>)
    ensures
        r@ == v@,
{
    let mut r: Vec<(String, String)> = Vec::new();
    let mut i: usize = 0;
    while i < v.len()
        invariant
            i <= v@.len(),
            r@ == v@.take(i as int),
        decreases v.len() - i,
    {
        r.push((v[i].0.clone(), v[i].1.clone()));
        assert(v@.take(i + 1) =~= v@.take(i as int).push(v@[i as int]));
        i = i + 1;
    }
    assert(v@.take(v@.len() as int) =~= v@);
    r
}

/// A copy of an optional text.
fn copy_opt(v: &Option<String>) -> (r: Option<String>)
    ensures
        r == *v,
{
    match v {
        Some(t) => Some(t.clone()),
        None => None,
    }
}

/// `s` is the snapshot of the page data `d`: the same title, description,
/// language, URLs, keywords and properties; the number of JSON-LD objects; a
/// summary per microdata item; the preview and byte length of the text; no query
/// matches.
pub open spec fn snapshot_of(d: crate::browser::SemanticData, s: SemanticSnapshot) -> bool {
    &&& s.title == d.title
    &&& s.description == d.meta_description
    &&& s.language == d.language
    &&& s.canonical_url == d.canonical_url
    &&& s.final_url == d.final_url
    &&& s.keywords@ == d.meta_keywords@
    &&& s.open_graph@ == d.open_graph@
    &&& s.twitter_card@ == d.twitter_card@
    &&& s.json_ld_count == d.json_ld@.len()
    &&& s.microdata@.len() == d.microdata@.len()
    &&& forall|k: int| 0 <= k < d.microdata@.len() ==> {
        &&& (#[trigger] s.microdata@[k]).item_type@ == d.microdata@[k].item_type@
        &&& s.microdata@[k].properties == d.microdata@[k].properties@.len()
    }
    &&& s.text_preview@ == preview_of(d.text_content@)
    &&& s.text_length == vstd::utf8::encode_utf8(d.text_content@).len() as usize
    &&& s.query_matches@.len() == 0
}

/// The snapshot of what a browser navigation extracted from a page.
pub fn semantic_data_to_snapshot(data: &crate::browser::SemanticData) -> (r: SemanticSnapshot)
    ensures
        snapshot_of(*data, r),
{
    let mut microdata: Vec<MicrodataSummary> = Vec::new();
    let mut i: usize = 0;
    while i < data.microdata.len()
        invariant
            i <= data.microdata@.len(),
            microdata@.len() == i,
            forall|k: int| 0 <= k < i ==> {
                &&& (#[trigger] microdata@[k]).item_type@ == data.microdata@[k].item_type@
                &&& microdata@[k].properties == data.microdata@[k].properties@.len()
            },
        decreases data.microdata.len() - i,
    {
        microdata.push(data.microdata[i].summary());
        i = i + 1;
    }
    let text = data.text_content.as_str();
    let text_length = text.len();
    let query_matches: Vec<QueryMention> = Vec::new();
    SemanticSnapshot {
        title: copy_opt(&data.title),
        description: copy_opt(&data.meta_description),
        language: copy_opt(&data.language),
        canonical_url: copy_opt(&data.canonical_url),
        final_url: data.final_url.clone(),
        keywords: copy_strings(&data.meta_keywords),
        open_graph: copy_pairs(&data.open_graph),
        twitter_card: copy_pairs(&data.twitter_card),
        json_ld_count: data.json_ld.len(),
        microdata,
        text_preview: build_preview(text),
        text_length,
        query_matches,
    }
}

/// Stores the triples that describe a page, as a browser navigation extracted
/// it, in the knowledge graph (with no query), and counts them.
pub fn insert_semantic_data_to_kg(
    data: &crate::browser::SemanticData,
    kg: &mut KnowledgeGraph,
    base_url: &str,
) -> (r: Result<usize, KgError>)
    ensures
        exists|s: SemanticSnapshot| {
            &&& #[trigger] snapshot_of(*data, s)
            &&& (r is Ok <==> forall|k: int|
                0 <= k < page_triples(s, base_url@, None).len() ==> triple_storable(
                    #[trigger] page_triples(s, base_url@, None)[k],
                ))
            &&& (r matches Ok(n) ==> n == page_triples(s, base_url@, None).len())
            &&& (r is Ok ==> final(kg)@ == old(kg)@ + applied_triples(page_triples(s, base_url@, None)))
        },
{
    let snapshot = semantic_data_to_snapshot(data);
    let r = insert_snapshot_to_kg(&snapshot, kg, base_url, None);
    assert(opt_seq(None) == None::<Seq<char>>);
    r
}

} // verus!
