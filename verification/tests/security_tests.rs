use semantic_browser::security::{strip_sparql_noise, validate_html_input, validate_sparql_query};

#[test]
fn test_html_validation() {
    assert!(validate_html_input("<html><body>Test</body></html>").is_ok());
    assert!(validate_html_input("<html><body><iframe src='evil'></iframe></body></html>").is_err());
}

#[test]
fn test_sparql_validation() {
    assert!(validate_sparql_query("SELECT * WHERE { ?s ?p ?o }").is_ok());
    assert!(validate_sparql_query("DROP ALL").is_err());
}

#[test]
fn test_html_allows_json_ld_script() {
    let html = r#"<html><head><script type="application/ld+json">{}</script></head></html>"#;
    assert!(validate_html_input(html).is_ok(), "JSON-LD scripts should be allowed by the validator");
}

#[test]
fn test_html_rejects_inline_event_handler() {
    let html = r#"<img src="test.png" onerror="alert('xss')" />"#;
    assert!(validate_html_input(html).is_err(), "Inline event handlers must be rejected");
}

#[test]
fn test_html_case_insensitive_checks() {
    assert!(
        validate_html_input("<SCRIPT>alert(1)</SCRIPT>").is_err(),
        "Uppercase script tag should be rejected"
    );
    let json_ld_upper = r#"<script TYPE="APPLICATION/LD+JSON">{}</script>"#;
    assert!(
        validate_html_input(json_ld_upper).is_ok(),
        "JSON-LD script type should be treated case-insensitively"
    );
}

#[test]
fn test_sparql_validation_handles_whitespace_and_case() {
    assert!(
        validate_sparql_query("   select * WHERE { ?s ?p ?o }").is_ok(),
        "Leading whitespace with lowercase operation should still be accepted"
    );
    assert!(validate_sparql_query("ask WHERE { ?s ?p ?o }").is_ok(), "Lowercase ASK should be normalized");
    assert!(
        validate_sparql_query("/* comment */ drop DATASET").is_err(),
        "Dangerous keywords inside comments should still trigger rejection"
    );
}

#[test]
fn test_html_rejects_mixed_script_with_json_ld() {
    let html = r#"<script type="application/ld+json">{}</script><script>alert(1)</script>"#;
    assert!(
        validate_html_input(html).is_err(),
        "A non-JSON-LD script must be rejected even when a JSON-LD script is present"
    );
}

#[test]
fn test_sparql_keyword_in_literal_is_allowed() {
    assert!(
        validate_sparql_query(r#"SELECT * WHERE { ?s ?p "please DROP this" }"#).is_ok(),
        "DROP inside a string literal should not be flagged"
    );
}

#[test]
fn test_sparql_keyword_in_iri_is_allowed() {
    assert!(
        validate_sparql_query("SELECT * WHERE { ?a <http://example.org/load> ?c }").is_ok(),
        "LOAD as an IRI path segment should not be flagged"
    );
}

#[test]
fn test_sparql_hash_comment_keyword_is_blocked() {
    assert!(
        validate_sparql_query("# harmless\nDROP GRAPH <http://x>").is_err(),
        "An actual DROP operation must be rejected"
    );
}

#[test]
fn html_error_messages_name_the_reason() {
    assert_eq!(validate_html_input("<embed src=x>"), Err("Potentially malicious HTML: script or embed tags detected"));
    assert_eq!(
        validate_html_input("<a href=\"javascript:alert(1)\">x</a>"),
        Err("Potentially malicious HTML: dangerous attributes or functions detected")
    );
    assert_eq!(validate_html_input(&"a".repeat(10_000_001)), Err("HTML too large"));
    assert!(validate_html_input(&"a".repeat(10_000_000)).is_ok());
    assert!(validate_html_input("<script type='application/ld+json'").is_err());
    assert!(validate_html_input("<script type = application/ld+json >{}</script>").is_ok());
}

#[test]
fn sparql_error_messages_name_the_reason() {
    assert_eq!(validate_sparql_query(&"S".repeat(10_001)), Err("Query too long"));
    assert_eq!(
        validate_sparql_query("FOO bar"),
        Err("Unsupported SPARQL operation. Allowed: SELECT, INSERT, DELETE, CONSTRUCT, ASK, DESCRIBE")
    );
    assert_eq!(
        validate_sparql_query("DELETE WHERE { ?s ?p ?o } ; CLEAR ALL"),
        Err("Potentially dangerous SPARQL operation detected")
    );
    // The prefix label belongs to the prologue: the operation follows it.
    assert!(validate_sparql_query("PREFIX ex: <http://ex.org/> SELECT ?s WHERE { ?s ex:p 'x' }").is_ok());
    assert!(validate_sparql_query("PREFIX ex: <http://ex.org/> FOO ?s").is_err());
    assert!(validate_sparql_query("PREFIX <http://ex.org/> SELECT ?s WHERE { ?s ?p ?o }").is_ok());
    assert!(validate_sparql_query("SELECT ?droplet WHERE { ?droplet ?p ?o }").is_ok());
}

#[test]
fn strip_sparql_noise_blanks_comments_literals_and_iris() {
    assert_eq!(strip_sparql_noise("a # c\nb"), "a \nb");
    assert_eq!(strip_sparql_noise("x \"q\\\"t\" y"), "x    y");
    assert_eq!(strip_sparql_noise("?a <http://e/x> ?b"), "?a   ?b");
    assert_eq!(strip_sparql_noise("?a < 3"), "?a < 3");
    assert_eq!(strip_sparql_noise("'unterminated"), "  ");
    assert_eq!(strip_sparql_noise("# only comment"), "");
}
