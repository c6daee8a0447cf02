//! Vocabulary of the knowledge graph: namespace prefixes and the decimal
//! notation of counts.
use vstd::prelude::*;
use crate::kg_integration::{ObjectText, TripleObject, TripleText};
use oxigraph::model::{GraphName, Literal, NamedNode, Quad, Term};
use crate::text::{chars_of, contains, contains_exec, index_of_from, push_str, str_eq, substring_of};

verus! {

/// The namespace IRI of a known prefix.
pub open spec fn namespace_of(prefix: Seq<char>) -> Option<Seq<char>> {
    if prefix == "og"@ {
        Some("http://ogp.me/ns#"@)
    } else if prefix == "twitter"@ {
        Some("https://dev.twitter.com/cards/markup#"@)
    } else if prefix == "schema"@ {
        Some("https://schema.org/"@)
    } else if prefix == "dcterms"@ {
        Some("http://purl.org/dc/terms/"@)
    } else if prefix == "rdf"@ {
        Some("http://www.w3.org/1999/02/22-rdf-syntax-ns#"@)
    } else if prefix == "rdfs"@ {
        Some("http://www.w3.org/2000/01/rdf-schema#"@)
    } else if prefix == "xsd"@ {
        Some("http://www.w3.org/2001/XMLSchema#"@)
    } else {
        None
    }
}

/// A prefixed name with its prefix replaced by the namespace IRI: the text before
/// the first `:` names the namespace, the rest is appended to it. A name without
/// `:` or with an unknown prefix is left as it is.
pub open spec fn expanded_name(p: Seq<char>) -> Seq<char> {
    match index_of_from(p, ':', 0) {
        Some(i) => match namespace_of(p.take(i)) {
            Some(ns) => ns + p.skip(i + 1),
            None => p,
        },
        None => p,
    }
}

/// The first `c` at or after `j` is at `i` when none comes between.
proof fn lemma_first_index(s: Seq<char>, c: char, j: int, i: int)
    requires
        0 <= j <= i < s.len(),
        s[i] == c,
        forall|k: int| j <= k < i ==> s[k] != c,
    ensures
        index_of_from(s, c, j) == Some(i),
    decreases i - j,
{
    if j < i {
        lemma_first_index(s, c, j + 1, i);
    }
}

/// A prefix without `:` written before `:` and a local name expands to its
/// namespace followed by the local name, when the prefix is known.
proof fn lemma_expand_known(prefix: Seq<char>, local: Seq<char>)
    requires
        forall|k: int| 0 <= k < prefix.len() ==> prefix[k] != ':',
    ensures
        ({
            let p = prefix + seq![':'] + local;
            namespace_of(prefix) matches Some(ns) ==> expanded_name(p) == ns + local
        }),
{
    let p = prefix + seq![':'] + local;
    lemma_first_index(p, ':', 0, prefix.len() as int);
    assert(p.take(prefix.len() as int) =~= prefix);
    assert(p.skip(prefix.len() as int + 1) =~= local);
}

/// Law: each documented prefix (`og`, `twitter`, `schema`, `dcterms`, `rdf`,
/// `rdfs`, `xsd`) followed by `:` and a local name expands to that prefix's
/// namespace IRI followed by the local name.
pub proof fn law_documented_prefixes_expand(local: Seq<char>)
    ensures
        expanded_name("og:"@ + local) == "http://ogp.me/ns#"@ + local,
        expanded_name("twitter:"@ + local) == "https://dev.twitter.com/cards/markup#"@ + local,
        expanded_name("schema:"@ + local) == "https://schema.org/"@ + local,
        expanded_name("dcterms:"@ + local) == "http://purl.org/dc/terms/"@ + local,
        expanded_name("rdf:"@ + local) == "http://www.w3.org/1999/02/22-rdf-syntax-ns#"@ + local,
        expanded_name("rdfs:"@ + local) == "http://www.w3.org/2000/01/rdf-schema#"@ + local,
        expanded_name("xsd:"@ + local) == "http://www.w3.org/2001/XMLSchema#"@ + local,
{
    reveal_strlit("og");
    reveal_strlit("og:");
    reveal_strlit("twitter");
    reveal_strlit("twitter:");
    reveal_strlit("schema");
    reveal_strlit("schema:");
    reveal_strlit("dcterms");
    reveal_strlit("dcterms:");
    reveal_strlit("rdf");
    reveal_strlit("rdf:");
    reveal_strlit("rdfs");
    reveal_strlit("rdfs:");
    reveal_strlit("xsd");
    reveal_strlit("xsd:");
    assert("twitter"@[0] != "dcterms"@[0] && "rdf"@[0] != "xsd"@[0]);
    assert("og:"@ =~= "og"@ + seq![':']);
    lemma_expand_known("og"@, local);
    assert("twitter:"@ =~= "twitter"@ + seq![':']);
    lemma_expand_known("twitter"@, local);
    assert("schema:"@ =~= "schema"@ + seq![':']);
    lemma_expand_known("schema"@, local);
    assert("dcterms:"@ =~= "dcterms"@ + seq![':']);
    lemma_expand_known("dcterms"@, local);
    assert("rdf:"@ =~= "rdf"@ + seq![':']);
    lemma_expand_known("rdf"@, local);
    assert("rdfs:"@ =~= "rdfs"@ + seq![':']);
    lemma_expand_known("rdfs"@, local);
    assert("xsd:"@ =~= "xsd"@ + seq![':']);
    lemma_expand_known("xsd"@, local);
}

/// The namespace IRI of a known prefix.
fn namespace(prefix: &str) -> (r: Option<&'static str>)
    ensures
        match r {
            Some(ns) => namespace_of(prefix@) == Some(ns@),
            None => namespace_of(prefix@) is None,
        },
{
    if str_eq(prefix, "og") {
        Some("http://ogp.me/ns#")
    } else if str_eq(prefix, "twitter") {
        Some("https://dev.twitter.com/cards/markup#")
    } else if str_eq(prefix, "schema") {
        Some("https://schema.org/")
    } else if str_eq(prefix, "dcterms") {
        Some("http://purl.org/dc/terms/")
    } else if str_eq(prefix, "rdf") {
        Some("http://www.w3.org/1999/02/22-rdf-syntax-ns#")
    } else if str_eq(prefix, "rdfs") {
        Some("http://www.w3.org/2000/01/rdf-schema#")
    } else if str_eq(prefix, "xsd") {
        Some("http://www.w3.org/2001/XMLSchema#")
    } else {
        None
    }
}

/// The decimal digit character of `d`.
pub open spec fn digit_char(d: nat) -> char {
    if d == 0 {
        '0'
    } else if d == 1 {
        '1'
    } else if d == 2 {
        '2'
    } else if d == 3 {
        '3'
    } else if d == 4 {
        '4'
    } else if d == 5 {
        '5'
    } else if d == 6 {
        '6'
    } else if d == 7 {
        '7'
    } else if d == 8 {
        '8'
    } else {
        '9'
    }
}

/// The decimal notation of `n`, without leading zeros.
pub open spec fn decimal(n: nat) -> Seq<char>
    decreases n,
{
    if n < 10 {
        seq![digit_char(n)]
    } else {
        decimal(n / 10).push(digit_char(n % 10))
    }
}

fn digit(d: usize) -> (c: char)
    requires
        d < 10,
    ensures
        c == digit_char(d as nat),
{
    if d == 0 {
        '0'
    } else if d == 1 {
        '1'
    } else if d == 2 {
        '2'
    } else if d == 3 {
        '3'
    } else if d == 4 {
        '4'
    } else if d == 5 {
        '5'
    } else if d == 6 {
        '6'
    } else if d == 7 {
        '7'
    } else if d == 8 {
        '8'
    } else {
        '9'
    }
}

fn push_decimal(s: &mut String, n: usize)
    ensures
        final(s)@ == old(s)@ + decimal(n as nat),
    decreases n,
{
    if n >= 10 {
        push_decimal(s, n / 10);
    }
    s.push(digit(n % 10));
}

/// The decimal notation of `n` (`usize::to_string`).
pub fn decimal_string(n: usize) -> (r: String)
    ensures
        r@ == decimal(n as nat),
{
    let mut s = String::new();
    push_decimal(&mut s, n);
    s
}

fn push_decimal_u64(s: &mut String, n: u64)
    ensures
        final(s)@ == old(s)@ + decimal(n as nat),
    decreases n,
{
    if n >= 10 {
        push_decimal_u64(s, n / 10);
    }
    s.push(digit((n % 10) as usize));
}

/// The decimal notation of `n` (`u64::to_string`).
pub fn decimal_u64_string(n: u64) -> (r: String)
    ensures
        r@ == decimal(n as nat),
{
    let mut s = String::new();
    push_decimal_u64(&mut s, n);
    s
}

// ---------------------------------------------------------------- the store

/// An RDF store (`oxigraph::store::Store`, in memory).
#[verifier::external_type_specification]
#[verifier::external_body]
pub struct ExStore(oxigraph::store::Store);

/// Name for the triples of the default graph of a store.
pub uninterp spec fn store_triples(store: oxigraph::store::Store) -> Set<TripleText>;

/// Name for whether `oxigraph::model::NamedNode::new` accepts a text as an IRI.
pub uninterp spec fn valid_iri(s: Seq<char>) -> bool;

/// Name for the texts of a triple's subject, predicate and object, each as its
/// term's `Display` writes it (an IRI between angle brackets, a literal quoted,
/// with its language or datatype).
pub uninterp spec fn term_texts(t: TripleText) -> (Seq<char>, Seq<char>, Seq<char>);

/// Three texts joined by single spaces.
pub open spec fn spaced(p: (Seq<char>, Seq<char>, Seq<char>)) -> Seq<char> {
    p.0 + " "@ + p.1 + " "@ + p.2
}

/// How a triple is listed: its terms' texts joined by single spaces.
pub open spec fn triple_display(t: TripleText) -> Seq<char> {
    spaced(term_texts(t))
}

/// Three texts as values.
pub open spec fn texts3(p: (String, String, String)) -> (Seq<char>, Seq<char>, Seq<char>) {
    (p.0@, p.1@, p.2@)
}

/// Three texts joined by single spaces.
fn join3(p: &(String, String, String)) -> (r: String)
    ensures
        r@ == spaced(texts3(*p)),
{
    let mut s = p.0.clone();
    push_str(&mut s, " ");
    push_str(&mut s, p.1.as_str());
    push_str(&mut s, " ");
    push_str(&mut s, p.2.as_str());
    s
}

/// Each triple written as its three texts joined by single spaces.
fn join_triples(ts: &Vec<(String, String, String)>) -> (r: Vec<String>)
    ensures
        r@.len() == ts@.len(),
        forall|i: int| 0 <= i < ts@.len() ==> #[trigger] r@[i]@ == spaced(texts3(ts@[i])),
{
    let mut out: Vec<String> = Vec::new();
    let mut i: usize = 0;
    while i < ts.len()
        invariant
            i <= ts@.len(),
            out@.len() == i,
            forall|k: int| 0 <= k < i ==> #[trigger] out@[k]@ == spaced(texts3(ts@[k])),
        decreases ts.len() - i,
    {
        out.push(join3(&ts[i]));
        i = i + 1;
    }
    out
}

/// `xsd:string`, the datatype of plain literals.
pub open spec fn xsd_string() -> Seq<char> {
    "http://www.w3.org/2001/XMLSchema#string"@
}

/// Name for the form in which the store keeps a literal `value` of a datatype
/// that it encodes natively (`EncodedTerm::from` of a literal): the value's
/// canonical form where it parses as that datatype (`"007"` of `xsd:integer` is
/// kept as `"7"`, an `xsd:byte` as an `xsd:integer`), the literal as it is otherwise.
pub uninterp spec fn native_literal(value: Seq<char>, datatype: Seq<char>) -> ObjectText;

/// The datatypes, other than `xsd:string`, whose literals the store encodes natively.
pub open spec fn native_datatype(d: Seq<char>) -> bool {
    let x = "http://www.w3.org/2001/XMLSchema#"@;
    &&& d.len() > x.len()
    &&& d.subrange(0, x.len() as int) == x
    &&& {
        let n = d.subrange(x.len() as int, d.len() as int);
        ||| n == "boolean"@ ||| n == "float"@ ||| n == "double"@ ||| n == "integer"@
        ||| n == "byte"@ ||| n == "short"@ ||| n == "int"@ ||| n == "long"@
        ||| n == "unsignedByte"@ ||| n == "unsignedShort"@ ||| n == "unsignedInt"@
        ||| n == "unsignedLong"@ ||| n == "positiveInteger"@ ||| n == "negativeInteger"@
        ||| n == "nonPositiveInteger"@ ||| n == "nonNegativeInteger"@ ||| n == "decimal"@
        ||| n == "dateTime"@ ||| n == "dateTimeStamp"@ ||| n == "time"@ ||| n == "date"@
        ||| n == "gYearMonth"@ ||| n == "gYear"@ ||| n == "gMonthDay"@ ||| n == "gDay"@
        ||| n == "gMonth"@ ||| n == "duration"@ ||| n == "yearMonthDuration"@
        ||| n == "dayTimeDuration"@
    }
}

/// How the store keeps an object: a literal typed `xsd:string` is a plain literal,
/// a literal of a natively encoded datatype is kept in that encoding's form, and
/// everything else as it is.
pub open spec fn stored_object(o: ObjectText) -> ObjectText {
    match o {
        ObjectText::TypedLiteral(v, d) => if d == xsd_string() {
            ObjectText::Literal(v)
        } else if native_datatype(d) {
            native_literal(v, d)
        } else {
            o
        },
        _ => o,
    }
}

/// Objects the store can hold as they are (not the "IRI or literal" choice).
pub open spec fn storable(o: ObjectText) -> bool {
    !(o is IriOrLiteral)
}

/// The IRIs that an object needs to be valid.
pub open spec fn object_iris_valid(o: ObjectText) -> bool {
    match o {
        ObjectText::Iri(i) => valid_iri(i),
        ObjectText::TypedLiteral(_, d) => valid_iri(d),
        _ => true,
    }
}

/// Creates an empty in-memory store (`oxigraph::store::Store::new`, which cannot
/// fail for an in-memory store). Claimed: the store holds no triple.
#[verifier::external_body]
fn new_store() -> (r: oxigraph::store::Store)
    ensures
        store_triples(r) == Set::<TripleText>::empty(),
{
    oxigraph::store::Store::new().expect("an in-memory store is always created")
}

/// Calls `oxigraph::model::NamedNode::new`. Claimed: the result is `valid_iri`
/// of the text; the IRI grammar is left unstated.
#[verifier::external_body]
pub(crate) fn is_valid_iri(s: &str) -> (r: bool)
    ensures
        r == valid_iri(s@),
{
    oxigraph::model::NamedNode::new(s).is_ok()
}

/// Inserts a triple into the default graph with `Store::insert` (which cannot fail
/// for an in-memory store; the terms are built with `NamedNode::new_unchecked`
/// and `Literal`'s constructors). Claimed: the default graph then holds the triple
/// in the form in which the store encodes it (`stored_object`, which names the
/// canonical forms of natively encoded literals), and `r` says whether that was new.
#[verifier::external_body]
fn store_insert(store: &mut oxigraph::store::Store, s: &str, p: &str, o: &TripleObject) -> (r: bool)
    requires
        storable(o@),
    ensures
        store_triples(*final(store)) == store_triples(*old(store)).insert((s@, p@, stored_object(o@))),
        r == !store_triples(*old(store)).contains((s@, p@, stored_object(o@))),
        match o@ {
            ObjectText::TypedLiteral(v, d) => d != xsd_string() && native_datatype(d) ==> store_triples(
                *final(store),
            ).contains((s@, p@, native_literal(v, d))),
            _ => true,
        },
{
    let object: Term = match o {
        TripleObject::Iri(i) | TripleObject::IriOrLiteral(i) => NamedNode::new_unchecked(i.as_str()).into(),
        TripleObject::Literal(v) => Literal::new_simple_literal(v.as_str()).into(),
        TripleObject::LangLiteral { value, lang } => Literal::new_language_tagged_literal_unchecked(value, lang).into(),
        TripleObject::TypedLiteral { value, datatype } => Literal::new_typed_literal(value, NamedNode::new_unchecked(datatype)).into(),
    };
    let quad = Quad::new(NamedNode::new_unchecked(s), NamedNode::new_unchecked(p), object, GraphName::DefaultGraph);
    store.insert(&quad).unwrap_or(false)
}

/// Lists the quads of every graph of the store with `Store::iter`, each as the
/// `Display` texts of its subject, predicate and object. Claimed: each triple of
/// the default graph is listed, once, so the list is at least that long. Left
/// unstated: the order, and the quads of named graphs (which an update may have
/// written), which are listed too.
#[verifier::external_body]
fn store_list(store: &oxigraph::store::Store) -> (r: Vec<(String, String, String)>)
    ensures
        r@.len() >= store_triples(*store).len(),
        forall|t: TripleText| #[trigger] store_triples(*store).contains(t) ==> r@.map_values(
            |p: (String, String, String)| texts3(p),
        ).contains(term_texts(t)),
{
    store.iter().filter_map(Result::ok).map(|q| (q.subject.to_string(), q.predicate.to_string(), q.object.to_string())).collect()
}

/// A parsed SPARQL query (`oxigraph::sparql::Query`).
#[verifier::external_type_specification]
#[verifier::external_body]
pub struct ExQuery(oxigraph::sparql::Query);

/// A parsed SPARQL update (`oxigraph::sparql::Update`).
#[verifier::external_type_specification]
#[verifier::external_body]
pub struct ExUpdate(oxigraph::sparql::Update);

/// Name for whether `oxigraph::sparql::Query::parse` (with no base IRI) accepts a text.
pub uninterp spec fn sparql_query_parses(q: Seq<char>) -> bool;

/// Name for whether `oxigraph::sparql::Update::parse` (with no base IRI) accepts a text.
pub uninterp spec fn sparql_update_parses(u: Seq<char>) -> bool;

/// The deepest nesting of brackets that a SPARQL text may have: the parser and
/// the evaluator recurse once per level, with no limit of their own.
pub const MAX_SPARQL_NESTING: usize = 32;

/// Reading the first `n` characters of `s`: how many brackets (`(`, `[`, `{`) are
/// open, and the most that were open at once. A closing bracket with none open
/// counts for nothing.
pub open spec fn bracket_depths(s: Seq<char>, n: nat) -> (int, int)
    decreases n,
{
    if n == 0 {
        (0, 0)
    } else {
        let (open, deepest) = bracket_depths(s, (n - 1) as nat);
        let c = s[n - 1];
        if c == '(' || c == '[' || c == '{' {
            (open + 1, if open + 1 > deepest { open + 1 } else { deepest })
        } else if (c == ')' || c == ']' || c == '}') && open > 0 {
            (open - 1, deepest)
        } else {
            (open, deepest)
        }
    }
}

/// The brackets of `s` nest at most `MAX_SPARQL_NESTING` deep.
pub open spec fn nesting_bounded(s: Seq<char>) -> bool {
    bracket_depths(s, s.len()).1 <= MAX_SPARQL_NESTING
}

/// Whether the brackets of `text` nest at most `MAX_SPARQL_NESTING` deep.
pub fn nesting_within_limit(text: &str) -> (r: bool)
    ensures
        r == nesting_bounded(text@),
{
    let v = chars_of(text);
    let mut open: usize = 0;
    let mut deepest: usize = 0;
    let mut i: usize = 0;
    while i < v.len()
        invariant
            i <= v@.len(),
            v@ == text@,
            open <= deepest <= i,
            (open as int, deepest as int) == bracket_depths(v@, i as nat),
        decreases v.len() - i,
    {
        let c = v[i];
        if c == '(' || c == '[' || c == '{' {
            open = open + 1;
            if open > deepest {
                deepest = open;
            }
        } else if (c == ')' || c == ']' || c == '}') && open > 0 {
            open = open - 1;
        }
        i = i + 1;
    }
    deepest <= MAX_SPARQL_NESTING
}

/// The error for a SPARQL text whose brackets nest too deeply.
pub open spec fn too_deep_message() -> Seq<char> {
    "SPARQL brackets nest more than 32 deep"@
}

/// Parses a SPARQL query with `Query::parse`, with no base IRI; a syntax error is
/// handed back as its message. Claimed: it succeeds exactly when
/// `sparql_query_parses` holds of the text; the grammar is left unstated. The
/// parser recurses once per level of brackets, so the text's nesting is bounded.
#[verifier::external_body]
fn parse_query(query: &str) -> (r: Result<oxigraph::sparql::Query, String>)
    requires
        nesting_bounded(query@),
    ensures
        r is Ok <==> sparql_query_parses(query@),
{
    match oxigraph::sparql::Query::parse(query, None) {
        Ok(q) => Ok(q),
        Err(e) => Err(e.to_string()),
    }
}

/// Parses a SPARQL update with `Update::parse`, with no base IRI; a syntax error is
/// handed back as its message. Claimed: it succeeds exactly when
/// `sparql_update_parses` holds of the text; the grammar is left unstated. The
/// parser recurses once per level of brackets, so the text's nesting is bounded.
#[verifier::external_body]
fn parse_update(update: &str) -> (r: Result<oxigraph::sparql::Update, String>)
    requires
        nesting_bounded(update@),
    ensures
        r is Ok <==> sparql_update_parses(update@),
{
    match oxigraph::sparql::Update::parse(update, None) {
        Ok(u) => Ok(u),
        Err(e) => Err(e.to_string()),
    }
}

/// What a SPARQL query gave, before it is written out as rows.
pub enum QueryOutput {
    /// The solutions of a `SELECT`, each as its `Debug` text.
    Solutions(Vec<String>),
    /// The answer of an `ASK`.
    Boolean(bool),
    /// The triples of a `CONSTRUCT` or `DESCRIBE`, each as the `Display` texts of
    /// its subject, predicate and object.
    Triples(Vec<(String, String, String)>),
}

/// Evaluates a parsed SPARQL query with `Store::query` and hands its results back:
/// each solution as its `Debug` text, a boolean as it is, each triple as its
/// terms' `Display` texts; an evaluation error is handed back as its message.
/// Nothing is claimed of the result: it depends on the store and the query, and a
/// query may read the clock or draw random numbers.
#[verifier::external_body]
fn store_query(store: &oxigraph::store::Store, query: oxigraph::sparql::Query) -> (r: Result<QueryOutput, String>) {
    match store.query(query).map_err(|e| e.to_string())? {
        oxigraph::sparql::QueryResults::Solutions(s) => {
            s.map(|x| x.map(|x| format!("{:?}", x)).map_err(|e| e.to_string())).collect::<Result<_, _>>().map(QueryOutput::Solutions)
        },
        oxigraph::sparql::QueryResults::Boolean(b) => Ok(QueryOutput::Boolean(b)),
        oxigraph::sparql::QueryResults::Graph(g) => g
            .map(|x| x.map(|t| (t.subject.to_string(), t.predicate.to_string(), t.object.to_string())).map_err(|e| e.to_string()))
            .collect::<Result<_, _>>()
            .map(QueryOutput::Triples),
    }
}

/// The rows that a query's results are written as: each solution's text, an
/// answer as `Result: true` or `Result: false`, each triple's texts joined by
/// single spaces.
pub open spec fn query_rows(o: QueryOutput) -> Seq<Seq<char>> {
    match o {
        QueryOutput::Solutions(v) => v@.map_values(|s: String| s@),
        QueryOutput::Boolean(b) => seq![if b { "Result: true"@ } else { "Result: false"@ }],
        QueryOutput::Triples(ts) => ts@.map_values(|p: (String, String, String)| spaced(texts3(p))),
    }
}

/// Writes a query's results as rows; see [`query_rows`].
pub fn rows_of(o: QueryOutput) -> (r: Vec<String>)
    ensures
        r@.map_values(|s: String| s@) == query_rows(o),
{
    match o {
        QueryOutput::Solutions(v) => v,
        QueryOutput::Boolean(b) => {
            let r = vec![if b { "Result: true".to_owned() } else { "Result: false".to_owned() }];
            assert(r@.map_values(|s: String| s@) =~= query_rows(o));
            r
        },
        QueryOutput::Triples(ts) => {
            let r = join_triples(&ts);
            assert(r@.map_values(|s: String| s@) =~= query_rows(QueryOutput::Triples(ts)));
            r
        },
    }
}

/// Evaluates a parsed SPARQL update with `Store::update`, which runs it in one
/// transaction of the in-memory storage; an error is handed back as its message.
/// Claimed: when it fails the store holds what it held before (the memory
/// storage rolls the transaction back unless the update succeeded). Nothing is
/// claimed of what a successful update leaves: that is what SPARQL says of the
/// update, which may read the clock or draw random numbers.
#[verifier::external_body]
fn store_update(store: &mut oxigraph::store::Store, update: oxigraph::sparql::Update) -> (r: Result<(), String>)
    ensures
        r is Err ==> store_triples(*final(store)) == store_triples(*old(store)),
{
    store.update(update).map_err(|e| e.to_string())
}

/// Why a triple could not be stored.
#[derive(Debug, Clone, PartialEq, Eq)]
pub enum KgError {
    /// The subject, predicate, object or datatype is not a valid IRI.
    InvalidIri(String),
    /// The SPARQL query or update failed, with the engine's message.
    Sparql(String),
}

/// An RDF knowledge graph held in memory.
pub struct KnowledgeGraph {
    store: oxigraph::store::Store,
}

impl View for KnowledgeGraph {
    type V = Set<TripleText>;

    closed spec fn view(&self) -> Set<TripleText> {
        store_triples(self.store)
    }
}

/// Inserting this object about `s` with `p` succeeds: the IRIs are valid.
pub open spec fn insertable(s: Seq<char>, p: Seq<char>, o: ObjectText) -> bool {
    valid_iri(s) && valid_iri(p) && object_iris_valid(o)
}

/// `rdfs:subClassOf`.
pub const SUBCLASS_OF: &'static str = "http://www.w3.org/2000/01/rdf-schema#subClassOf";

/// How many query results mention `rdfs:subClassOf`.
pub open spec fn mentions_subclass(results: Seq<String>) -> nat
    decreases results.len(),
{
    if results.len() == 0 {
        0
    } else {
        mentions_subclass(results.drop_last()) + if contains(results.last()@, SUBCLASS_OF@) {
            1nat
        } else {
            0nat
        }
    }
}

/// Counts the query results that mention `rdfs:subClassOf`.
pub fn count_subclass_mentions(results: &Vec<String>) -> (r: usize)
    ensures
        r == mentions_subclass(results@),
{
    let p = chars_of(SUBCLASS_OF);
    let mut n: usize = 0;
    let mut i: usize = 0;
    while i < results.len()
        invariant
            i <= results@.len(),
            p@ == SUBCLASS_OF@,
            n == mentions_subclass(results@.take(i as int)),
            n <= i,
        decreases results.len() - i,
    {
        let v = chars_of(results[i].as_str());
        if contains_exec(&v, &p) {
            n = n + 1;
        }
        proof {
            assert(results@.take(i + 1).drop_last() =~= results@.take(i as int));
        }
        i = i + 1;
    }
    assert(results@.take(results@.len() as int) =~= results@);
    n
}

/// The update that adds the transitive `rdfs:subClassOf` links.
pub const SUBCLASS_CLOSURE_UPDATE: &'static str = "INSERT {\n               ?a <http://www.w3.org/2000/01/rdf-schema#subClassOf> ?c\n             }\n             WHERE {\n               ?a <http://www.w3.org/2000/01/rdf-schema#subClassOf> ?b .\n               ?b <http://www.w3.org/2000/01/rdf-schema#subClassOf> ?c .\n               FILTER(?a != ?c)\n               FILTER NOT EXISTS { ?a <http://www.w3.org/2000/01/rdf-schema#subClassOf> ?c }\n             }";

/// The query that lists the missing transitive `rdfs:subClassOf` links.
pub const SUBCLASS_CLOSURE_QUERY: &'static str = "CONSTRUCT { ?a <http://www.w3.org/2000/01/rdf-schema#subClassOf> ?c }\n             WHERE {\n               ?a <http://www.w3.org/2000/01/rdf-schema#subClassOf> ?b .\n               ?b <http://www.w3.org/2000/01/rdf-schema#subClassOf> ?c .\n               FILTER(?a != ?c)\n               FILTER NOT EXISTS { ?a <http://www.w3.org/2000/01/rdf-schema#subClassOf> ?c }\n             }";

/// The update that adds the transitive `rdfs:subPropertyOf` links.
pub const SUBPROPERTY_CLOSURE_UPDATE: &'static str = "INSERT {\n               ?a <http://www.w3.org/2000/01/rdf-schema#subPropertyOf> ?c\n             }\n             WHERE {\n               ?a <http://www.w3.org/2000/01/rdf-schema#subPropertyOf> ?b .\n               ?b <http://www.w3.org/2000/01/rdf-schema#subPropertyOf> ?c .\n               FILTER(?a != ?c)\n               FILTER NOT EXISTS { ?a <http://www.w3.org/2000/01/rdf-schema#subPropertyOf> ?c }\n             }";

/// The update that gives instances the types of the superclasses of their types.
pub const TYPE_PROPAGATION_UPDATE: &'static str = "INSERT {\n               ?x <http://www.w3.org/1999/02/22-rdf-syntax-ns#type> ?b\n             }\n             WHERE {\n               ?x <http://www.w3.org/1999/02/22-rdf-syntax-ns#type> ?a .\n               ?a <http://www.w3.org/2000/01/rdf-schema#subClassOf> ?b .\n               FILTER NOT EXISTS { ?x <http://www.w3.org/1999/02/22-rdf-syntax-ns#type> ?b }\n             }";

/// The query that lists the IRIs used as subject or object (at most 1000).
pub const ENTITIES_QUERY: &'static str = "SELECT DISTINCT ?e WHERE {\n            { ?e ?p ?o } UNION { ?s ?p ?e }\n            FILTER(isIRI(?e))\n        } LIMIT 1000";

/// The query that lists the IRIs used as predicate (at most 100).
pub const RELATIONS_QUERY: &'static str = "SELECT DISTINCT ?p WHERE {\n            ?s ?p ?o\n            FILTER(isIRI(?p))\n        } LIMIT 100";

/// The first index at or after `i` where `s` holds `<` or `>`; the length of `s`
/// when there is none.
pub open spec fn bracket_end(s: Seq<char>, i: int) -> int
    decreases s.len() - i,
{
    if i < 0 || i >= s.len() {
        s.len() as int
    } else if s[i] == '<' || s[i] == '>' {
        i
    } else {
        bracket_end(s, i + 1)
    }
}

/// `bracket_end` stays between its start and the end of the text.
pub proof fn lemma_bracket_end(s: Seq<char>, i: int)
    requires
        0 <= i <= s.len(),
    ensures
        i <= bracket_end(s, i) <= s.len(),
        forall|k: int| i <= k < bracket_end(s, i) ==> s[k] != '<' && s[k] != '>',
    decreases s.len() - i,
{
    if i < s.len() && !(s[i] == '<' || s[i] == '>') {
        lemma_bracket_end(s, i + 1);
    }
}

/// The IRI in a result row: the text after the row's first `<`, up to the next
/// `<` or `>` (or the end of the row); none when the row has no `<`.
pub open spec fn bracketed_iri(row: Seq<char>) -> Option<Seq<char>> {
    match index_of_from(row, '<', 0) {
        Some(i) => Some(row.subrange(i + 1, bracket_end(row, i + 1))),
        None => None,
    }
}

/// The IRIs of the result rows that have one, in order.
pub open spec fn result_iris(rows: Seq<String>) -> Seq<Seq<char>>
    decreases rows.len(),
{
    if rows.len() == 0 {
        Seq::empty()
    } else {
        let prev = result_iris(rows.drop_last());
        match bracketed_iri(rows.last()@) {
            Some(x) => prev.push(x),
            None => prev,
        }
    }
}

/// The IRI in one result row.
fn row_iri(row: &str) -> (r: Option<String>)
    ensures
        match r {
            Some(x) => bracketed_iri(row@) == Some(x@),
            None => bracketed_iri(row@) is None,
        },
{
    let v = chars_of(row);
    let mut i: usize = 0;
    while i < v.len() && v[i] != '<'
        invariant
            i <= v@.len(),
            v@ == row@,
            index_of_from(v@, '<', 0) == index_of_from(v@, '<', i as int),
        decreases v.len() - i,
    {
        i = i + 1;
    }
    if i == v.len() {
        return None;
    }
    let mut j: usize = i + 1;
    proof {
        lemma_bracket_end(v@, i + 1);
    }
    while j < v.len() && v[j] != '<' && v[j] != '>'
        invariant
            i < j <= v@.len(),
            v@ == row@,
            bracket_end(v@, i + 1) == bracket_end(v@, j as int),
        decreases v.len() - j,
    {
        j = j + 1;
    }
    Some(substring_of(&v, i + 1, j))
}

/// The IRIs of the result rows that have one, in order.
pub fn iris_of_results(rows: &Vec<String>) -> (r: Vec<String>)
    ensures
        r@.map_values(|s: String| s@) == result_iris(rows@),
{
    let mut out: Vec<String> = Vec::new();
    let mut i: usize = 0;
    while i < rows.len()
        invariant
            i <= rows@.len(),
            out@.map_values(|s: String| s@) == result_iris(rows@.take(i as int)),
        decreases rows.len() - i,
    {
        proof {
            assert(rows@.take(i + 1).drop_last() =~= rows@.take(i as int));
        }
        match row_iri(rows[i].as_str()) {
            Some(x) => {
                out.push(x);
                assert(out@.map_values(|s: String| s@) =~= result_iris(rows@.take(i as int)).push(
                    out@.last()@,
                ));
            },
            None => {},
        }
        i = i + 1;
    }
    assert(rows@.take(rows@.len() as int) =~= rows@);
    out
}

impl KnowledgeGraph {
    /// Expands a prefixed name (`og:title`, `schema:name`, ...) to a full IRI.
    pub fn expand_namespace(prefixed: &str) -> (r: String)
        ensures
            r@ == expanded_name(prefixed@),
    {
        let v = chars_of(prefixed);
        let mut i: usize = 0;
        while i < v.len() && v[i] != ':'
            invariant
                i <= v@.len(),
                v@ == prefixed@,
                index_of_from(v@, ':', 0) == index_of_from(v@, ':', i as int),
            decreases v.len() - i,
        {
            i = i + 1;
        }
        if i == v.len() {
            return prefixed.to_owned();
        }
        let prefix = substring_of(&v, 0, i);
        assert(prefix@ =~= v@.take(i as int));
        match namespace(prefix.as_str()) {
            Some(ns) => {
                let mut r = ns.to_owned();
                let local = substring_of(&v, i + 1, v.len());
                assert(local@ =~= v@.skip(i + 1));
                push_str(&mut r, local.as_str());
                r
            },
            None => prefixed.to_owned(),
        }
    }

    /// A new, empty in-memory graph.
    pub fn new() -> (r: Self)
        ensures
            r@ == Set::<TripleText>::empty(),
    {
        KnowledgeGraph { store: new_store() }
    }

    /// Stores a triple after checking its IRIs.
    fn put(&mut self, s: &str, p: &str, o: TripleObject) -> (r: Result<(), KgError>)
        requires
            storable(o@),
        ensures
            r is Ok <==> insertable(s@, p@, o@),
            r is Ok ==> final(self)@ == old(self)@.insert((s@, p@, stored_object(o@))),
            r is Err ==> final(self)@ == old(self)@ && r matches Err(KgError::InvalidIri(_)),
    {
        if !is_valid_iri(s) {
            return Err(KgError::InvalidIri(s.to_owned()));
        }
        if !is_valid_iri(p) {
            return Err(KgError::InvalidIri(p.to_owned()));
        }
        match &o {
            TripleObject::Iri(i) => {
                if !is_valid_iri(i.as_str()) {
                    return Err(KgError::InvalidIri(i.clone()));
                }
            },
            TripleObject::TypedLiteral { datatype, .. } => {
                if !is_valid_iri(datatype.as_str()) {
                    return Err(KgError::InvalidIri(datatype.clone()));
                }
            },
            _ => {},
        }
        let _ = store_insert(&mut self.store, s, p, &o);
        Ok(())
    }

    /// Adds a triple whose object is an IRI.
    pub fn insert(&mut self, s: &str, p: &str, o: &str) -> (r: Result<(), KgError>)
        ensures
            r is Ok <==> (valid_iri(s@) && valid_iri(p@) && valid_iri(o@)),
            r is Ok ==> final(self)@ == old(self)@.insert((s@, p@, ObjectText::Iri(o@))),
            r is Err ==> final(self)@ == old(self)@,
    {
        self.put(s, p, TripleObject::Iri(o.to_owned()))
    }

    /// Adds a triple whose object is a plain literal.
    pub fn insert_literal(&mut self, subject: &str, predicate: &str, literal_value: &str) -> (r: Result<(), KgError>)
        ensures
            r is Ok <==> (valid_iri(subject@) && valid_iri(predicate@)),
            r is Ok ==> final(self)@ == old(self)@.insert((subject@, predicate@, ObjectText::Literal(literal_value@))),
            r is Err ==> final(self)@ == old(self)@,
    {
        self.put(subject, predicate, TripleObject::Literal(literal_value.to_owned()))
    }

    /// Adds a triple whose object is a literal of the given datatype.
    pub fn insert_typed_literal(&mut self, subject: &str, predicate: &str, value: &str, datatype: &str) -> (r: Result<(), KgError>)
        ensures
            r is Ok <==> (valid_iri(subject@) && valid_iri(predicate@) && valid_iri(datatype@)),
            r is Ok ==> final(self)@ == old(self)@.insert(
                (subject@, predicate@, stored_object(ObjectText::TypedLiteral(value@, datatype@))),
            ),
            r is Err ==> final(self)@ == old(self)@,
    {
        self.put(
            subject,
            predicate,
            TripleObject::TypedLiteral { value: value.to_owned(), datatype: datatype.to_owned() },
        )
    }

    /// Adds a triple whose object is a language-tagged literal.
    pub fn insert_language_literal(&mut self, subject: &str, predicate: &str, value: &str, language: &str) -> (r: Result<(), KgError>)
        ensures
            r is Ok <==> (valid_iri(subject@) && valid_iri(predicate@)),
            r is Ok ==> final(self)@ == old(self)@.insert(
                (subject@, predicate@, ObjectText::LangLiteral(value@, language@)),
            ),
            r is Err ==> final(self)@ == old(self)@,
    {
        self.put(subject, predicate, TripleObject::LangLiteral { value: value.to_owned(), lang: language.to_owned() })
    }

    /// Every triple, written as its subject, predicate and object: each triple of
    /// the graph, and the quads of named graphs that updates may have written.
    pub fn list_triples(&self) -> (r: Vec<String>)
        ensures
            r@.len() >= self@.len(),
            forall|t: TripleText| #[trigger] self@.contains(t) ==> r@.map_values(|s: String| s@).contains(
                triple_display(t),
            ),
    {
        let ts = store_list(&self.store);
        let r = join_triples(&ts);
        assert forall|t: TripleText| #[trigger] self@.contains(t) implies r@.map_values(|s: String| s@).contains(
            triple_display(t),
        ) by {
            let tv = ts@.map_values(|p: (String, String, String)| texts3(p));
            let j = choose|j: int| 0 <= j < tv.len() && tv[j] == term_texts(t);
            assert(r@.map_values(|s: String| s@)[j] == triple_display(t));
        }
        r
    }

    /// Runs a SPARQL query (SELECT, ASK, CONSTRUCT, DESCRIBE).
    /// A text whose brackets nest more than `MAX_SPARQL_NESTING` deep is refused
    /// before it is parsed.
    pub fn query(&self, query_str: &str) -> (r: Result<Vec<String>, KgError>)
        ensures
            !nesting_bounded(query_str@) ==> (r matches Err(KgError::Sparql(m)) && m@ == too_deep_message()),
            !sparql_query_parses(query_str@) ==> r is Err,
            r is Err ==> r matches Err(KgError::Sparql(_)),
    {
        if !nesting_within_limit(query_str) {
            return Err(KgError::Sparql("SPARQL brackets nest more than 32 deep".to_owned()));
        }
        match parse_query(query_str) {
            Err(e) => Err(KgError::Sparql(e)),
            Ok(q) => match store_query(&self.store, q) {
                Ok(o) => Ok(rows_of(o)),
                Err(e) => Err(KgError::Sparql(e)),
            },
        }
    }

    /// Runs a SPARQL update (INSERT, DELETE). A failed update changes nothing. A
    /// text whose brackets nest more than `MAX_SPARQL_NESTING` deep is refused
    /// before it is parsed.
    pub fn update(&mut self, update_str: &str) -> (r: Result<(), KgError>)
        ensures
            !nesting_bounded(update_str@) ==> (r matches Err(KgError::Sparql(m)) && m@ == too_deep_message()),
            !sparql_update_parses(update_str@) ==> r is Err,
            r is Err ==> r matches Err(KgError::Sparql(_)),
            r is Err ==> final(self)@ == old(self)@,
    {
        if !nesting_within_limit(update_str) {
            return Err(KgError::Sparql("SPARQL brackets nest more than 32 deep".to_owned()));
        }
        match parse_update(update_str) {
            Err(e) => Err(KgError::Sparql(e)),
            Ok(u) => match store_update(&mut self.store, u) {
                Ok(()) => Ok(()),
                Err(e) => Err(KgError::Sparql(e)),
            },
        }
    }

    /// The IRIs used as subject or object: those of the rows of [`ENTITIES_QUERY`].
    pub fn get_all_entities(&self) -> (r: Result<Vec<String>, KgError>)
        ensures
            !sparql_query_parses(ENTITIES_QUERY@) ==> r is Err,
            r is Err ==> r matches Err(KgError::Sparql(_)),
    {
        let rows = self.query(ENTITIES_QUERY)?;
        Ok(iris_of_results(&rows))
    }

    /// The IRIs used as predicate: those of the rows of [`RELATIONS_QUERY`].
    pub fn get_all_relations(&self) -> (r: Result<Vec<String>, KgError>)
        ensures
            !sparql_query_parses(RELATIONS_QUERY@) ==> r is Err,
            r is Err ==> r matches Err(KgError::Sparql(_)),
    {
        let rows = self.query(RELATIONS_QUERY)?;
        Ok(iris_of_results(&rows))
    }

    /// Adds the transitive `rdfs:subClassOf` links: lists the missing ones, and when
    /// there are some, inserts them; the count is that of the listed results that
    /// mention `rdfs:subClassOf` (none when the insertion fails). Only the listing
    /// can fail, and then nothing has changed.
    fn infer_subclass_transitive(&mut self) -> (r: Result<usize, KgError>)
        ensures
            !sparql_query_parses(SUBCLASS_CLOSURE_QUERY@) ==> r is Err,
            r is Err ==> r matches Err(KgError::Sparql(_)),
            r is Err ==> final(self)@ == old(self)@,
    {
        let results = self.query(SUBCLASS_CLOSURE_QUERY)?;
        if results.len() == 0 {
            return Ok(0);
        }
        let inferred = count_subclass_mentions(&results);
        match self.update(SUBCLASS_CLOSURE_UPDATE) {
            Ok(()) => Ok(inferred),
            Err(_) => Ok(0),
        }
    }

    /// Adds the transitive `rdfs:subPropertyOf` links; 1 when the update ran, 0 when
    /// it failed, and then nothing has changed.
    fn infer_subproperty_transitive(&mut self) -> (r: Result<usize, KgError>)
        ensures
            r matches Ok(n) && n <= 1,
            !sparql_update_parses(SUBPROPERTY_CLOSURE_UPDATE@) ==> r == Ok::<usize, KgError>(0),
            r == Ok::<usize, KgError>(0) ==> final(self)@ == old(self)@,
    {
        match self.update(SUBPROPERTY_CLOSURE_UPDATE) {
            Ok(()) => Ok(1),
            Err(_) => Ok(0),
        }
    }

    /// Gives instances the types of the superclasses of their types; 1 when the
    /// update ran, 0 when it failed, and then nothing has changed.
    fn infer_type_propagation(&mut self) -> (r: Result<usize, KgError>)
        ensures
            r matches Ok(n) && n <= 1,
            !sparql_update_parses(TYPE_PROPAGATION_UPDATE@) ==> r == Ok::<usize, KgError>(0),
            r == Ok::<usize, KgError>(0) ==> final(self)@ == old(self)@,
    {
        match self.update(TYPE_PROPAGATION_UPDATE) {
            Ok(()) => Ok(1),
            Err(_) => Ok(0),
        }
    }

    /// Rule-based inference: the `rdfs:subClassOf` and `rdfs:subPropertyOf`
    /// closures, then type propagation along the class hierarchy. Only the listing
    /// of the missing `rdfs:subClassOf` links can fail, and then nothing has changed.
    pub fn infer(&mut self) -> (r: Result<(), KgError>)
        ensures
            !sparql_query_parses(SUBCLASS_CLOSURE_QUERY@) ==> r is Err,
            r is Err ==> r matches Err(KgError::Sparql(_)),
            r is Err ==> final(self)@ == old(self)@,
    {
        let subclass = self.infer_subclass_transitive()?;
        let subproperty = self.infer_subproperty_transitive()?;
        let propagated = self.infer_type_propagation()?;
        Ok(())
    }
}

impl Default for KnowledgeGraph {
    fn default() -> (r: Self)
        ensures
            r@ == Set::<TripleText>::empty(),
    {
        Self::new()
    }
}

/// Law: a stored triple is listed afterwards, and storing it again leaves the
/// graph as it was (the graph is a set of triples).
pub proof fn law_insert_then_list(g: Set<TripleText>, t: TripleText)
    ensures
        g.insert(t).map(|x: TripleText| triple_display(x)).contains(triple_display(t)),
        g.insert(t).insert(t) == g.insert(t),
{
    assert(g.insert(t).contains(t));
    assert(g.insert(t).insert(t) =~= g.insert(t));
}

} // verus!
