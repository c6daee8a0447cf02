use semantic_browser::annotator::{aggregate_spans, entity_texts, parse_bio_label, EntitySpan, Tag, TokenLabel};
use semantic_browser::browser::SemanticData;
use semantic_browser::kg::{
    decimal_string, iris_of_results, KgError, KnowledgeGraph, ENTITIES_QUERY, RELATIONS_QUERY,
};
use semantic_browser::kg_integration::{
    build_preview, insert_semantic_data_to_kg, insert_snapshot_to_kg, semantic_data_to_snapshot, snapshot_triples, Triple,
    TripleObject,
};
use semantic_browser::models::{MicrodataSummary, QueryMention, SemanticSnapshot};

#[test]
fn test_expand_namespace() {
    assert_eq!(KnowledgeGraph::expand_namespace("og:title"), "http://ogp.me/ns#title");
    assert_eq!(KnowledgeGraph::expand_namespace("twitter:card"), "https://dev.twitter.com/cards/markup#card");
    assert_eq!(KnowledgeGraph::expand_namespace("schema:name"), "https://schema.org/name");
    assert_eq!(KnowledgeGraph::expand_namespace("dcterms:description"), "http://purl.org/dc/terms/description");
    // Test unknown prefix
    assert_eq!(KnowledgeGraph::expand_namespace("unknown:prop"), "unknown:prop");
    // Test no prefix
    assert_eq!(KnowledgeGraph::expand_namespace("http://example.com/prop"), "http://example.com/prop");
}

#[test]
fn expand_namespace_splits_at_first_colon() {
    assert_eq!(KnowledgeGraph::expand_namespace("og:image:width"), "http://ogp.me/ns#image:width");
    assert_eq!(KnowledgeGraph::expand_namespace("xsd:integer"), "http://www.w3.org/2001/XMLSchema#integer");
    assert_eq!(KnowledgeGraph::expand_namespace("plain"), "plain");
}

#[test]
fn decimal_notation() {
    for n in [0usize, 7, 10, 99, 100, 4096, usize::MAX] {
        assert_eq!(decimal_string(n), n.to_string());
    }
}

fn snapshot(title: Option<&str>, final_url: &str) -> SemanticSnapshot {
    SemanticSnapshot {
        title: title.map(String::from),
        description: None,
        language: None,
        canonical_url: None,
        final_url: final_url.to_string(),
        keywords: vec![],
        open_graph: vec![],
        twitter_card: vec![],
        json_ld_count: 0,
        microdata: vec![],
        text_preview: String::new(),
        text_length: 0,
        query_matches: vec![],
    }
}

fn predicates(ts: &[Triple]) -> Vec<&str> {
    ts.iter().map(|t| t.predicate.as_str()).collect()
}

fn page_data(title: &str) -> SemanticData {
    SemanticData {
        title: Some(title.to_string()),
        json_ld: vec![],
        microdata: vec![],
        text_content: String::new(),
        screenshot: None,
        final_url: "https://example.com".to_string(),
        meta_description: None,
        meta_keywords: vec![],
        language: None,
        canonical_url: None,
        open_graph: vec![],
        twitter_card: vec![],
    }
}

#[test]
fn test_insert_semantic_data_minimal() {
    let mut data = page_data("Test Page");
    data.meta_description = Some("Test description".to_string());
    data.meta_keywords = vec!["test".to_string(), "example".to_string()];
    data.language = Some("en".to_string());
    data.canonical_url = Some("https://example.com/canonical".to_string());

    let mut kg = KnowledgeGraph::new();
    let count = insert_semantic_data_to_kg(&data, &mut kg, "https://example.com").unwrap();

    // Should insert: title, description, keywords, language, canonical (2), final_url, rdf:type
    assert!(count >= 7, "Expected at least 7 triples, got {}", count);

    let triples = kg.list_triples();
    assert!(!triples.is_empty());
}

#[test]
fn test_insert_semantic_data_with_og_twitter() {
    let mut data = page_data("Test");
    data.open_graph = vec![
        ("title".to_string(), "OG Title".to_string()),
        ("image".to_string(), "https://example.com/image.jpg".to_string()),
        ("type".to_string(), "article".to_string()),
    ];
    data.twitter_card = vec![("card".to_string(), "summary".to_string()), ("site".to_string(), "@example".to_string())];

    let mut kg = KnowledgeGraph::new();
    let count = insert_semantic_data_to_kg(&data, &mut kg, "https://example.com").unwrap();

    // Should insert: title, 3 OG tags, 2 Twitter tags, rdf:type = 7+
    assert!(count >= 6, "Expected at least 6 triples, got {}", count);

    let triples = kg.list_triples();
    let has_og = triples.iter().any(|t| t.contains("ogp.me"));
    let has_twitter = triples.iter().any(|t| t.contains("twitter.com"));
    assert!(has_og || has_twitter, "Should have OG or Twitter triples");
}

#[test]
fn snapshot_of_page_data_keeps_fields_and_previews_text() {
    let mut data = page_data("T");
    data.text_content = "  many   words\n here ".to_string();
    data.meta_keywords = vec!["k".to_string()];
    data.open_graph = vec![("title".to_string(), "OG".to_string())];
    let s = semantic_data_to_snapshot(&data);
    assert_eq!(s.title.as_deref(), Some("T"));
    assert_eq!(s.final_url, "https://example.com");
    assert_eq!(s.keywords, vec!["k".to_string()]);
    assert_eq!(s.open_graph, vec![("title".to_string(), "OG".to_string())]);
    assert_eq!(s.text_preview, "many words here");
    assert_eq!(s.text_length, 21);
    assert_eq!(s.json_ld_count, 0);
    assert!(s.query_matches.is_empty());
}

#[test]
fn iris_are_read_between_angle_brackets() {
    let rows = vec![
        "?e=<http://example.org/a>".to_string(),
        "no iri here".to_string(),
        "<http://example.org/b".to_string(),
        "x <http://example.org/c> y <http://example.org/d>".to_string(),
    ];
    assert_eq!(
        iris_of_results(&rows),
        vec!["http://example.org/a", "http://example.org/b", "http://example.org/c"]
    );
}

#[test]
fn entities_and_relations_of_the_graph() {
    let mut kg = KnowledgeGraph::new();
    kg.insert("http://example.org/s", "http://example.org/p", "http://example.org/o").unwrap();
    let entity_rows = kg.query(ENTITIES_QUERY).unwrap();
    assert_eq!(entity_rows.len(), 2);
    assert_eq!(kg.get_all_entities().unwrap(), iris_of_results(&entity_rows));
    let relation_rows = kg.query(RELATIONS_QUERY).unwrap();
    assert_eq!(relation_rows.len(), 1);
    assert_eq!(kg.get_all_relations().unwrap(), iris_of_results(&relation_rows));
}

#[test]
fn snapshot_triples_in_order() {
    let mut s = snapshot(Some("T"), "https://example.com/final");
    s.language = Some("fr".to_string());
    s.keywords = vec!["k".to_string()];
    s.open_graph = vec![("image".to_string(), "https://i".to_string()), ("type".to_string(), "article".to_string())];
    s.json_ld_count = 2;
    s.microdata = vec![
        MicrodataSummary { item_type: "https://schema.org/Person".to_string(), properties: 3 },
        MicrodataSummary { item_type: String::new(), properties: 0 },
    ];
    s.text_preview = "hello".to_string();
    s.query_matches = vec![QueryMention { excerpt: "ex".to_string(), element: "p".to_string(), score_text: "0.50".to_string() }];
    let ts = snapshot_triples(&s, "https://example.com", Some("q"));
    assert_eq!(
        predicates(&ts),
        vec![
            "http://purl.org/dc/terms/title",
            "https://schema.org/keywords",
            "http://purl.org/dc/terms/language",
            "http://purl.org/dc/terms/hasVersion",
            "http://ogp.me/ns#image",
            "http://ogp.me/ns#type",
            "https://schema.org/numberOfItems",
            "https://schema.org/numberOfItems",
            "https://schema.org/itemType",
            "https://schema.org/numberOfProperties",
            "https://schema.org/numberOfProperties",
            "https://schema.org/abstract",
            "https://schema.org/mentions",
            "https://schema.org/query",
            "http://www.w3.org/1999/02/22-rdf-syntax-ns#type",
        ]
    );
    assert!(ts.iter().all(|t| t.subject == "https://example.com"));
    assert!(matches!(&ts[0].object, TripleObject::LangLiteral { value, lang } if value == "T" && lang == "fr"));
    assert!(matches!(&ts[4].object, TripleObject::IriOrLiteral(v) if v == "https://i"));
    assert!(matches!(&ts[5].object, TripleObject::Literal(v) if v == "article"));
    assert!(matches!(&ts[6].object, TripleObject::TypedLiteral { value, .. } if value == "2"));
    assert!(matches!(&ts[12].object, TripleObject::Literal(v) if v == "ex (element=p, score=0.50)"));
    assert!(matches!(&ts[14].object, TripleObject::Iri(v) if v == "https://schema.org/WebPage"));
}

#[test]
fn page_without_metadata_is_just_a_web_page() {
    let ts = snapshot_triples(&snapshot(None, "https://a"), "https://a", None);
    assert_eq!(ts.len(), 1);
}

#[test]
fn preview_collapses_whitespace_and_cuts() {
    assert_eq!(build_preview("  hello \n\t world  "), "hello world");
    assert_eq!(build_preview(""), "");
    let long = "word ".repeat(100);
    let p = build_preview(&long);
    assert_eq!(p.chars().count(), 323);
    assert!(p.ends_with("..."));
    let exact = "a".repeat(320);
    assert_eq!(build_preview(&exact), exact);
    let multibyte = "é".repeat(321);
    assert_eq!(build_preview(&multibyte), format!("{}...", "é".repeat(320)));
}

#[test]
fn bio_labels() {
    assert!(matches!(parse_bio_label("O"), Some((Tag::Outside, t)) if t.is_empty()));
    assert!(matches!(parse_bio_label("B-PER"), Some((Tag::Begin, t)) if t == "PER"));
    assert!(matches!(parse_bio_label("S-LOC"), Some((Tag::Single, t)) if t == "LOC"));
    assert!(parse_bio_label("X-PER").is_none());
}

fn tok(start: usize, end: usize, label: &str) -> TokenLabel {
    TokenLabel { start, end, label: label.to_string(), is_special: false }
}

#[test]
fn test_aggregate_entities_merges_sequences() {
    let text = "Alice works at Example Corp in London.";
    let tokens = vec![
        tok(0, 5, "B-PER"),
        tok(6, 11, "O"),
        tok(15, 22, "B-ORG"),
        tok(23, 27, "I-ORG"),
        tok(25, 27, "O"),
        tok(31, 37, "B-LOC"),
    ];
    // Token scores stay with the caller: the library groups the tokens.
    let confidences: [f32; 6] = [0.92, 0.0, 0.88, 0.84, 0.0, 0.81];
    let spans = aggregate_spans(&tokens);
    let got: Vec<(&str, usize, usize, Vec<usize>)> =
        spans.iter().map(|s| (s.entity_type.as_str(), s.start, s.end, s.tokens.clone())).collect();
    assert_eq!(
        got,
        vec![("PER", 0, 5, vec![0]), ("ORG", 15, 27, vec![2, 3]), ("LOC", 31, 37, vec![5])]
    );
    let found = entity_texts(text, &spans);
    let entities: Vec<(&str, &str, f32)> = found
        .iter()
        .map(|e| {
            let conf = e.tokens.iter().map(|&i| confidences[i]).sum::<f32>() / e.tokens.len() as f32;
            (e.entity_type.as_str(), e.text.as_str(), conf)
        })
        .collect();
    assert_eq!(entities.len(), 3);
    assert_eq!(entities[0].0, "PER");
    assert_eq!(entities[0].1, "Alice");
    assert!((entities[0].2 - 0.92).abs() < f32::EPSILON);

    assert_eq!(entities[1].0, "ORG");
    assert_eq!(entities[1].1, "Example Corp");
    assert!((entities[1].2 - 0.86).abs() < 0.02);

    assert_eq!(entities[2].0, "LOC");
    assert_eq!(entities[2].1, "London");
    assert!((entities[2].2 - 0.81).abs() < f32::EPSILON);
}

#[test]
fn stray_inside_and_end_tags_start_entities() {
    let mut special = tok(0, 1, "B-X");
    special.is_special = true;
    let tokens = vec![
        special,
        tok(0, 3, "I-A"),
        tok(4, 6, "E-A"),
        tok(7, 9, "E-B"),
        tok(10, 10, "S-C"),
        tok(11, 12, "S-C"),
    ];
    let spans = aggregate_spans(&tokens);
    let got: Vec<(&str, usize, usize)> = spans.iter().map(|s| (s.entity_type.as_str(), s.start, s.end)).collect();
    assert_eq!(got, vec![("A", 0, 6), ("B", 7, 9), ("C", 11, 12)]);
}

#[test]
fn test_kg_insert_and_list() {
    let mut kg = KnowledgeGraph::new();
    kg.insert("http://ex.org/s", "http://ex.org/p", "http://ex.org/o").unwrap();
    let triples = kg.list_triples();
    assert_eq!(triples.len(), 1);
    assert!(triples[0].contains("http://ex.org/s"));
}

#[test]
fn test_kg_query() {
    let mut kg = KnowledgeGraph::new();
    kg.insert("http://ex.org/s", "http://ex.org/p", "http://ex.org/o").unwrap();
    let results = kg.query("SELECT * WHERE { ?s ?p ?o }").unwrap();
    assert!(!results.is_empty());
}

#[test]
fn test_insert_literal() {
    let mut kg = KnowledgeGraph::new();
    kg.insert_literal("https://example.com", "http://purl.org/dc/terms/description", "Example description")
        .unwrap();

    let triples = kg.list_triples();
    assert_eq!(triples.len(), 1);
    assert!(triples[0].contains("Example description"));
}

#[test]
fn test_insert_typed_literal() {
    let mut kg = KnowledgeGraph::new();
    kg.insert_typed_literal(
        "https://example.com",
        "http://schema.org/datePublished",
        "2025-01-15",
        "http://www.w3.org/2001/XMLSchema#date",
    )
    .unwrap();

    let triples = kg.list_triples();
    assert_eq!(triples.len(), 1);
    assert!(triples[0].contains("2025-01-15"));
}

#[test]
fn test_insert_language_literal() {
    let mut kg = KnowledgeGraph::new();
    kg.insert_language_literal("https://example.com", "http://purl.org/dc/terms/title", "Example Title", "en")
        .unwrap();

    let triples = kg.list_triples();
    assert_eq!(triples.len(), 1);
    assert!(triples[0].contains("Example Title"));
}

#[test]
fn test_multiple_literals() {
    let mut kg = KnowledgeGraph::new();

    kg.insert_literal("https://example.com", "http://purl.org/dc/terms/description", "Description 1").unwrap();
    kg.insert_literal("https://example.com", "http://schema.org/keywords", "rust, semantic web").unwrap();
    kg.insert_language_literal("https://example.com", "http://purl.org/dc/terms/title", "Example", "en").unwrap();

    let triples = kg.list_triples();
    assert_eq!(triples.len(), 3);
}

#[test]
fn invalid_iris_are_refused_and_duplicates_kept_once() {
    let mut kg = KnowledgeGraph::new();
    assert!(matches!(kg.insert("not an iri", "http://ex.org/p", "http://ex.org/o"), Err(KgError::InvalidIri(_))));
    assert!(kg.list_triples().is_empty());
    kg.insert("http://ex.org/s", "http://ex.org/p", "http://ex.org/o").unwrap();
    kg.insert("http://ex.org/s", "http://ex.org/p", "http://ex.org/o").unwrap();
    // a literal typed xsd:string is a plain literal
    kg.insert_literal("http://ex.org/s", "http://ex.org/p", "v").unwrap();
    kg.insert_typed_literal("http://ex.org/s", "http://ex.org/p", "v", "http://www.w3.org/2001/XMLSchema#string").unwrap();
    assert_eq!(kg.list_triples().len(), 2);
    assert!(matches!(kg.query("SELECT nonsense"), Err(KgError::Sparql(_))));
}

#[test]
fn inference_closes_subclass_chains() {
    let mut kg = KnowledgeGraph::new();
    let sub = "http://www.w3.org/2000/01/rdf-schema#subClassOf";
    kg.insert("http://ex.org/A", sub, "http://ex.org/B").unwrap();
    kg.insert("http://ex.org/B", sub, "http://ex.org/C").unwrap();
    kg.insert("http://ex.org/x", "http://www.w3.org/1999/02/22-rdf-syntax-ns#type", "http://ex.org/A").unwrap();
    kg.infer().unwrap();
    let triples = kg.list_triples();
    assert!(triples.iter().any(|t| t.contains("<http://ex.org/A>") && t.contains("<http://ex.org/C>")));
    assert!(triples.iter().any(|t| t.contains("<http://ex.org/x>") && t.contains("<http://ex.org/B>")));
}

#[test]
fn snapshot_is_stored_in_the_graph() {
    let mut s = snapshot(Some("Title"), "https://example.com");
    s.open_graph = vec![("image".to_string(), "https://example.com/i.png".to_string()), ("bad".to_string(), "http://bad iri".to_string())];
    let mut kg = KnowledgeGraph::new();
    let n = insert_snapshot_to_kg(&s, &mut kg, "https://example.com", None).unwrap();
    assert_eq!(n, 4);
    let triples = kg.list_triples();
    assert_eq!(triples.len(), 4);
    assert!(triples.iter().any(|t| t.contains("<https://example.com/i.png>")));
    assert!(triples.iter().any(|t| t.contains("\"http://bad iri\"")));
    assert!(insert_snapshot_to_kg(&s, &mut kg, "not a url", None).is_err());
    assert_eq!(kg.list_triples().len(), 4);
}

#[test]
fn test_regex_entities() {
    let text = "John Smith works at Microsoft in New York.";
    let entities = semantic_browser::annotator::extract_entities_regex(text);
    assert!(!entities.is_empty());
    assert!(entities.iter().any(|e| e == "John Smith"));
}

#[test]
fn annotate_html_reads_the_body() {
    let html = "<html><head><title>Ignored Title</title></head><body><p>Ada Lovelace met Charles Babbage.</p></body></html>";
    assert_eq!(
        semantic_browser::annotator::annotate_html(html),
        vec!["Ada Lovelace".to_string(), "Charles Babbage".to_string()]
    );
}

#[test]
fn malformed_query_is_a_sparql_error() {
    let kg = KnowledgeGraph::new();
    assert!(matches!(kg.query("this is not sparql"), Err(KgError::Sparql(_))));
}

#[test]
fn failed_update_changes_nothing() {
    let mut kg = KnowledgeGraph::new();
    kg.insert("http://ex.org/s", "http://ex.org/p", "http://ex.org/o").unwrap();
    assert!(matches!(kg.update("INSERT garbage"), Err(KgError::Sparql(_))));
    assert_eq!(kg.list_triples().len(), 1);
}

#[test]
fn update_inserts_data() {
    let mut kg = KnowledgeGraph::new();
    kg.update("INSERT DATA { <http://ex.org/a> <http://ex.org/b> <http://ex.org/c> }").unwrap();
    let triples = kg.list_triples();
    assert_eq!(triples.len(), 1);
    assert!(triples[0].contains("http://ex.org/c"));
}

#[test]
fn inference_adds_transitive_subclass_links() {
    let sub = "http://www.w3.org/2000/01/rdf-schema#subClassOf";
    let mut kg = KnowledgeGraph::new();
    kg.insert("http://ex.org/A", sub, "http://ex.org/B").unwrap();
    kg.insert("http://ex.org/B", sub, "http://ex.org/C").unwrap();
    kg.infer().unwrap();
    let triples = kg.list_triples();
    assert_eq!(triples.len(), 3);
    assert!(triples.iter().any(|t| t.contains("http://ex.org/A") && t.contains("http://ex.org/C")));
}

#[test]
fn integer_literals_are_kept_in_canonical_form() {
    let int = "http://www.w3.org/2001/XMLSchema#integer";
    let mut kg = KnowledgeGraph::new();
    kg.insert_typed_literal("http://ex.org/s", "http://ex.org/n", "007", int).unwrap();
    kg.insert_typed_literal("http://ex.org/s", "http://ex.org/n", "7", int).unwrap();
    let triples = kg.list_triples();
    assert_eq!(triples.len(), 1);
    assert!(triples[0].contains("\"7\""));
}

#[test]
fn entity_texts_cut_by_byte_offsets_and_drop_blank_or_split_ranges() {
    let text = "Zoë lives in Köln";
    let span = |t: &str, start: usize, end: usize| EntitySpan { entity_type: t.to_string(), start, end, tokens: vec![0] };
    let spans = vec![
        span("PER", 0, 4),   // "Zoë" (ë takes two bytes)
        span("X", 0, 3),     // ends inside ë: no text
        span("Y", 3, 5),     // "ë " trimmed would start inside ë: no text
        span("Z", 4, 5),     // a single space: blank
        span("LOC", 13, 19), // " Köln" trimmed
        span("W", 19, 30),   // past the end
    ];
    let found = entity_texts(text, &spans);
    let got: Vec<(&str, &str)> = found.iter().map(|e| (e.entity_type.as_str(), e.text.as_str())).collect();
    assert_eq!(got, vec![("PER", "Zoë"), ("LOC", "Köln")]);
}

#[test]
fn deeply_nested_sparql_is_refused_before_parsing() {
    let mut kg = KnowledgeGraph::new();
    let deep = format!("SELECT * WHERE {{ ?s ?p ?o FILTER({}1{}) }}", "(".repeat(100_000), ")".repeat(100_000));
    match kg.query(&deep) {
        Err(KgError::Sparql(m)) => assert_eq!(m, "SPARQL brackets nest more than 32 deep"),
        _ => panic!("expected the nesting error"),
    }
    let deep_update = format!("INSERT DATA {{ {} }}", "[".repeat(40));
    assert!(matches!(kg.update(&deep_update), Err(KgError::Sparql(_))));
    // 32 levels in all (the WHERE braces count) are still read
    let ok = format!("ASK {{ FILTER({}1{}) }}", "(".repeat(30), ")".repeat(30));
    assert_eq!(kg.query(&ok).unwrap(), vec!["Result: true".to_string()]);
}

#[test]
fn query_results_are_written_as_rows() {
    let mut kg = KnowledgeGraph::new();
    kg.insert("http://ex.org/s", "http://ex.org/p", "http://ex.org/o").unwrap();
    assert_eq!(kg.query("ASK { ?s ?p ?o }").unwrap(), vec!["Result: true".to_string()]);
    assert_eq!(
        kg.query("CONSTRUCT { ?s ?p ?o } WHERE { ?s ?p ?o }").unwrap(),
        vec!["<http://ex.org/s> <http://ex.org/p> <http://ex.org/o>".to_string()]
    );
    assert_eq!(kg.list_triples(), vec!["<http://ex.org/s> <http://ex.org/p> <http://ex.org/o>".to_string()]);
}

#[test]
fn invalid_base_url_stores_nothing() {
    let mut kg = KnowledgeGraph::new();
    kg.insert("http://ex.org/s", "http://ex.org/p", "http://ex.org/o").unwrap();
    let s = snapshot(Some("Title"), "https://example.com");
    match insert_snapshot_to_kg(&s, &mut kg, "not a url", None) {
        Err(KgError::InvalidIri(b)) => assert_eq!(b, "not a url"),
        _ => panic!("expected the invalid IRI error"),
    }
    assert_eq!(kg.list_triples().len(), 1);
}
