use semantic_browser::auth_manager::{
    authorization_url, extract_url_param, form_login_session, join_scopes, oauth2_session, AuthenticationManager,
    OAuth2Config, OAuth2TokenResponse, SessionData,
};

#[test]
fn test_session_data_builder() {
    let session = SessionData::new()
        .with_bearer_token("token123")
        .with_cookie("session_id", "abc")
        .with_metadata("user", "admin");

    assert_eq!(session.tokens.get("bearer"), Some(&"token123".to_string()));
    assert_eq!(session.cookies.get("session_id"), Some(&"abc".to_string()));
    assert_eq!(session.metadata.get("user"), Some(&"admin".to_string()));
}

#[test]
fn test_session_expiration() {
    let mut session = SessionData::new();
    session.set_expiration(3600);

    assert!(!session.is_expired());

    // Test expired session
    let mut expired_session = SessionData::new();
    expired_session.expires_at = Some(0);
    assert!(expired_session.is_expired());
}

#[test]
fn test_auth_manager_session_storage() {
    let mut manager = AuthenticationManager::new();
    let session = SessionData::new().with_bearer_token("test_token");

    manager.store_session("test_session", session.clone());
    assert!(manager.get_session("test_session").is_some());

    manager.remove_session("test_session");
    assert!(manager.get_session("test_session").is_none());
}

#[test]
fn expiry_is_inclusive_and_absent_expiry_never_expires() {
    let mut s = SessionData::new();
    assert!(!s.is_expired_at(u64::MAX));
    s.set_expiration_at(100, 50);
    assert_eq!(s.expires_at, Some(150));
    assert!(!s.is_expired_at(149));
    assert!(s.is_expired_at(150));
}

#[test]
fn stored_session_replaces_former_one() {
    let mut manager = AuthenticationManager::new();
    manager.store_session("a", SessionData::new().with_cookie("k", "1"));
    manager.store_session("a", SessionData::new().with_cookie("k", "2"));
    assert_eq!(manager.session_ids(), vec!["a".to_string()]);
    assert_eq!(manager.get_session("a").unwrap().cookies.get("k"), Some(&"2".to_string()));
    assert!(manager.remove_session("a").is_some());
    assert!(manager.remove_session("a").is_none());
}

#[test]
fn bearer_header_needs_an_access_token() {
    let mut manager = AuthenticationManager::new();
    assert_eq!(manager.bearer_header_value("x"), Err("Session not found"));
    manager.store_session("x", SessionData::new());
    assert_eq!(manager.bearer_header_value("x"), Ok(None));
}

fn github_config() -> OAuth2Config {
    OAuth2Config {
        provider: "github".to_string(),
        client_id: "cid".to_string(),
        client_secret: "secret".to_string(),
        auth_endpoint: "https://github.com/login/oauth/authorize".to_string(),
        token_endpoint: "https://github.com/login/oauth/access_token".to_string(),
        redirect_uri: "http://localhost:8080/callback".to_string(),
        scopes: vec!["repo".to_string(), "user:email".to_string()],
        consent_button_selector: None,
    }
}

#[test]
fn oauth2_urls_and_sessions() {
    let config = github_config();
    assert_eq!(join_scopes(&config.scopes), "repo user:email");
    let url = authorization_url(&config);
    assert!(url.starts_with("https://github.com/login/oauth/authorize?client_id=cid&redirect_uri="));
    assert!(url.contains("http%3A%2F%2Flocalhost%3A8080%2Fcallback"));
    assert!(url.contains("scope=repo%20user%3Aemail"));
    assert_eq!(
        extract_url_param("http://localhost:8080/callback?code=abc&state=xyz", "code"),
        Some("abc".to_string())
    );
    assert_eq!(extract_url_param("http://localhost:8080/callback?state=xyz", "code"), None);

    let token = OAuth2TokenResponse {
        access_token: "at".to_string(),
        token_type: "bearer".to_string(),
        expires_in: None,
        refresh_token: Some("rt".to_string()),
        scope: None,
    };
    let session = oauth2_session(token, &config);
    assert_eq!(session.tokens.get("access_token"), Some(&"at".to_string()));
    assert_eq!(session.tokens.get("refresh_token"), Some(&"rt".to_string()));
    assert_eq!(session.metadata.get("provider"), Some(&"github".to_string()));
    assert_eq!(session.metadata.get("scopes"), Some(&"repo user:email".to_string()));

    let mut manager = AuthenticationManager::new();
    manager.store_session("gh", session);
    assert_eq!(manager.bearer_header_value("gh"), Ok(Some("Bearer at".to_string())));
}

#[test]
fn form_login_keeps_cookies_and_user() {
    let s = form_login_session(vec![("sid".to_string(), "1".to_string())], "https://x/login", "bob");
    assert_eq!(s.cookies.get("sid"), Some(&"1".to_string()));
    assert_eq!(s.metadata.get("login_url"), Some(&"https://x/login".to_string()));
    assert_eq!(s.metadata.get("username"), Some(&"bob".to_string()));
}

#[test]
fn set_expiration_keeps_the_maps_and_sets_a_later_instant() {
    let mut s = SessionData::new().with_cookie("k", "v");
    s.set_expiration(100);
    let e = s.expires_at.unwrap();
    assert!(e >= 100);
    assert_eq!(s.cookies.get("k"), Some(&"v".to_string()));
}
