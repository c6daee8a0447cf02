use semantic_browser::api::{check_rate_limit, check_rate_limit_at, extract_ip, is_browsable_url, is_update_query, RateLimits, RATE_LIMIT_MAX, RATE_WINDOW_NANOS};

#[test]
fn test_rate_limit_logic() {
    let mut rate_limits = RateLimits::new();
    let ip = "127.0.0.1";

    // First 10 requests should succeed
    for _ in 0..10 {
        assert!(check_rate_limit(&mut rate_limits, ip));
    }

    // 11th request should fail
    assert!(!check_rate_limit(&mut rate_limits, ip));
}

#[test]
fn test_extract_ip() {
    // X-Forwarded-For wins
    assert_eq!(extract_ip(Some("192.168.1.1"), None, "127.0.0.1"), "192.168.1.1");
    // then X-Real-IP
    assert_eq!(extract_ip(None, Some("10.0.0.1"), "127.0.0.1"), "10.0.0.1");
    // then the connection address
    assert_eq!(extract_ip(None, None, "127.0.0.1"), "127.0.0.1");
}

#[test]
fn forwarded_for_takes_first_address_trimmed() {
    assert_eq!(extract_ip(Some(" 203.0.113.5 , 10.0.0.1"), Some("10.0.0.9"), "127.0.0.1"), "203.0.113.5");
}

#[test]
fn rate_limit_window_resets_and_ips_are_independent() {
    let mut limits = RateLimits::new();
    for _ in 0..RATE_LIMIT_MAX {
        assert!(check_rate_limit_at(&mut limits, "1.1.1.1", 1_000));
    }
    assert!(!check_rate_limit_at(&mut limits, "1.1.1.1", 2_000));
    // another client is not affected
    assert!(check_rate_limit_at(&mut limits, "2.2.2.2", 2_000));
    // after the window the counter starts over
    assert!(check_rate_limit_at(&mut limits, "1.1.1.1", 1_000 + RATE_WINDOW_NANOS + 1));
}

#[test]
fn update_queries_and_browsable_urls() {
    assert!(is_update_query("INSERT DATA { <a> <b> <c> }"));
    assert!(!is_update_query("SELECT * WHERE { ?s ?p ?o }"));
    assert!(is_browsable_url("https://example.com"));
    assert!(!is_browsable_url("ftp://example.com"));
}
