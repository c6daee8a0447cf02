use semantic_browser::parser::{browse_report, group_properties, parse_html, ParseError};

#[test]
fn test_parse_html_basic() {
    let html = r#"
        <html>
        <head><title>Test Page</title></head>
        <body>
        <h1>Hello World</h1>
        <script type="application/ld+json">{"@type": "Person", "name": "John"}</script>
        </body>
        </html>
        "#;
    let result = parse_html(html).unwrap();
    assert_eq!(result.title, Some("Test Page".to_string()));
    assert_eq!(result.json_ld.len(), 1);
}

#[test]
fn parse_html_reads_microdata_and_refuses_bad_pages() {
    let html = r#"<html><body>
        <div itemscope itemtype="https://schema.org/Person">
          <span itemprop="name">Ada</span>
          <span itemprop="knows">Bob</span>
          <span itemprop="knows">Cy</span>
        </div>
        <div itemscope><b itemprop>x</b></div>
        </body></html>"#;
    let data = parse_html(html).unwrap();
    assert_eq!(data.title, None);
    assert_eq!(data.microdata.len(), 2);
    let person = &data.microdata[0];
    assert_eq!(person.item_type, "https://schema.org/Person");
    assert_eq!(person.properties.get("name"), Some(&vec!["Ada".to_string()]));
    assert_eq!(person.properties.get("knows"), Some(&vec!["Bob".to_string(), "Cy".to_string()]));
    assert_eq!(data.microdata[1].item_type, "");
    assert_eq!(data.microdata[1].properties.get(""), Some(&vec!["x".to_string()]));

    assert_eq!(
        parse_html("<iframe src=x></iframe>").err(),
        Some(ParseError::Rejected("Potentially malicious HTML: script or embed tags detected"))
    );
    let bad = r#"<script type="application/ld+json">{not json}</script>"#;
    assert!(matches!(parse_html(bad), Err(ParseError::InvalidJsonLd(_))));
}

#[test]
fn properties_group_by_name_in_order() {
    let props = vec![
        (Some("a".to_string()), "1".to_string()),
        (None, "2".to_string()),
        (Some("a".to_string()), "3".to_string()),
    ];
    let m = group_properties(&props);
    assert_eq!(m.len(), 2);
    assert_eq!(m.get("a"), Some(&vec!["1".to_string(), "3".to_string()]));
    assert_eq!(m.get(""), Some(&vec!["2".to_string()]));
}

#[test]
fn browse_report_summarises_a_page() {
    let html = r#"<html><head><title>Shop</title>
        <script type="application/ld+json">{"@type": "Product"}</script>
        <script type="application/ld+json">{broken</script></head>
        <body><div itemscope itemtype="https://schema.org/Product"><span itemprop="name">Tea</span><span itemprop="price">3</span></div>
        <script>alert(1)</script></body></html>"#;
    assert_eq!(
        browse_report("https://shop.example", "tea", html),
        "Browsed https://shop.example with query 'tea'\nTitle: Shop\nJSON-LD objects: 1\nMicrodata items: 1\n- https://schema.org/Product: 2\n"
    );
    assert_eq!(
        browse_report("u", "q", "<p>plain</p>"),
        "Browsed u with query 'q'\nJSON-LD objects: 0\nMicrodata items: 0\n"
    );
}
