use semantic_browser::browser::semantic_data_from_page;
use semantic_browser::page_meta::{page_meta, page_text, split_keywords};

#[test]
fn test_extract_meta_description() {
    let html = r#"
            <html>
            <head>
                <meta name="description" content="This is a test description">
            </head>
            <body></body>
            </html>
        "#;
    assert_eq!(page_meta(html).description, Some("This is a test description".to_string()));
}

#[test]
fn test_extract_meta_description_missing() {
    let html = "<html><head></head><body></body></html>";
    assert_eq!(page_meta(html).description, None);
}

#[test]
fn test_extract_meta_description_empty() {
    let html = r#"<html><head><meta name="description" content=""></head><body></body></html>"#;
    assert_eq!(page_meta(html).description, None);
}

#[test]
fn test_extract_meta_keywords() {
    let html = r#"
            <html>
            <head>
                <meta name="keywords" content="rust, html, semantic, web">
            </head>
            <body></body>
            </html>
        "#;
    assert_eq!(page_meta(html).keywords, vec!["rust", "html", "semantic", "web"]);
}

#[test]
fn test_extract_meta_keywords_empty() {
    let html = "<html><head></head><body></body></html>";
    assert!(page_meta(html).keywords.is_empty());
}

#[test]
fn test_extract_language() {
    let html = r#"<html lang="en-US"><head></head><body></body></html>"#;
    assert_eq!(page_meta(html).language, Some("en-US".to_string()));
}

#[test]
fn test_extract_language_missing() {
    let html = "<html><head></head><body></body></html>";
    assert_eq!(page_meta(html).language, None);
}

#[test]
fn test_extract_canonical_url() {
    let html = r#"
            <html>
            <head>
                <link rel="canonical" href="https://example.com/canonical-page">
            </head>
            <body></body>
            </html>
        "#;
    assert_eq!(page_meta(html).canonical_url, Some("https://example.com/canonical-page".to_string()));
}

#[test]
fn test_extract_canonical_url_missing() {
    let html = "<html><head></head><body></body></html>";
    assert_eq!(page_meta(html).canonical_url, None);
}

#[test]
fn test_extract_open_graph() {
    let html = r#"
            <html>
            <head>
                <meta property="og:title" content="Test Page">
                <meta property="og:description" content="A test page description">
                <meta property="og:image" content="https://example.com/image.jpg">
                <meta property="og:type" content="article">
            </head>
            <body></body>
            </html>
        "#;
    let result = page_meta(html).open_graph;
    assert_eq!(result.len(), 4);
    assert_eq!(result.get("title"), Some(&"Test Page".to_string()));
    assert_eq!(result.get("description"), Some(&"A test page description".to_string()));
    assert_eq!(result.get("image"), Some(&"https://example.com/image.jpg".to_string()));
    assert_eq!(result.get("type"), Some(&"article".to_string()));
}

#[test]
fn test_extract_open_graph_empty() {
    let html = "<html><head></head><body></body></html>";
    assert!(page_meta(html).open_graph.is_empty());
}

#[test]
fn test_extract_twitter_card() {
    let html = r#"
            <html>
            <head>
                <meta name="twitter:card" content="summary_large_image">
                <meta name="twitter:site" content="@example">
                <meta name="twitter:title" content="Test Page">
                <meta name="twitter:description" content="A test page">
                <meta name="twitter:image" content="https://example.com/twitter-image.jpg">
            </head>
            <body></body>
            </html>
        "#;
    let result = page_meta(html).twitter_card;
    assert_eq!(result.len(), 5);
    assert_eq!(result.get("card"), Some(&"summary_large_image".to_string()));
    assert_eq!(result.get("site"), Some(&"@example".to_string()));
    assert_eq!(result.get("title"), Some(&"Test Page".to_string()));
    assert_eq!(result.get("description"), Some(&"A test page".to_string()));
    assert_eq!(result.get("image"), Some(&"https://example.com/twitter-image.jpg".to_string()));
}

#[test]
fn test_extract_twitter_card_empty() {
    let html = "<html><head></head><body></body></html>";
    assert!(page_meta(html).twitter_card.is_empty());
}

#[test]
fn test_extract_meta_keywords_with_spaces() {
    let html = r#"
            <html>
            <head>
                <meta name="keywords" content="  rust  ,  html  ,  semantic  ">
            </head>
            <body></body>
            </html>
        "#;
    assert_eq!(page_meta(html).keywords, vec!["rust", "html", "semantic"]);
}

#[test]
fn keyword_splitting_drops_blank_pieces() {
    assert_eq!(split_keywords(" a,, b ,"), vec!["a", "b"]);
    assert!(split_keywords("").is_empty());
    assert!(split_keywords(" , ").is_empty());
}

#[test]
fn repeated_prefixes_are_all_removed() {
    let html = r#"<meta property="og:og:title" content="  T  "><meta property="og:title" content="U">"#;
    let og = page_meta(html).open_graph;
    assert_eq!(og.len(), 1);
    assert_eq!(og.get("title"), Some(&"U".to_string()));
}

#[test]
fn page_text_prefers_main_content() {
    let html = "<html><body><nav>Menu items</nav><main>  Main   text\n here </main><footer>F</footer></body></html>";
    assert_eq!(page_text(html), "Main text here");
}

#[test]
fn page_text_skips_empty_sections_and_falls_back_to_body() {
    let html = "<html><body><article>   </article><p>Body  words</p> <p>more</p></body></html>";
    assert_eq!(page_text(html), "Body words more");
    assert_eq!(page_text("<html><body></body></html>"), "");
}

#[test]
fn page_text_uses_content_class() {
    let html = "<html><body><div class=\"content\">Inner <b>bold</b></div><p>other</p></body></html>";
    assert_eq!(page_text(html), "Inner bold");
}

#[test]
fn semantic_data_from_page_reads_html() {
    let html = r#"<html lang="en"><head><title>T</title>
        <meta name="description" content=" A page ">
        <meta name="keywords" content="a, b">
        <meta property="og:title" content="OG">
        <script type="application/ld+json">{"@type":"Thing"}</script>
        <script type="application/ld+json">not json</script>
        </head><body><main>Hello world</main>
        <div itemscope itemtype="https://schema.org/Person"><span itemprop="name">Ann</span></div></body></html>"#;
    let d = semantic_data_from_page(html, "https://x.org/".to_string(), Some("Nav title".to_string()), None);
    assert_eq!(d.title.as_deref(), Some("Nav title"));
    assert_eq!(d.final_url, "https://x.org/");
    assert_eq!(d.json_ld.len(), 1);
    assert_eq!(d.microdata.len(), 1);
    assert_eq!(d.microdata[0].item_type, "https://schema.org/Person");
    assert_eq!(d.text_content, "Hello world");
    assert_eq!(d.meta_description.as_deref(), Some("A page"));
    assert_eq!(d.meta_keywords, vec!["a".to_string(), "b".to_string()]);
    assert_eq!(d.language.as_deref(), Some("en"));
    assert_eq!(d.open_graph, vec![("title".to_string(), "OG".to_string())]);
    assert!(d.twitter_card.is_empty());
    assert!(d.screenshot.is_none());
}
