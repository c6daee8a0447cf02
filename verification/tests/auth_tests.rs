use semantic_browser::auth::{
    anonymous_claims, extract_token_from_header, jwt_mode_from_secret, require_role, AuthError, Claims, JwtMode,
    DAY_SECS,
};

#[test]
fn test_claims_creation() {
    let claims = Claims::new("testuser".to_string(), Some("admin".to_string()));
    assert_eq!(claims.sub, "testuser");
    assert_eq!(claims.role, Some("admin".to_string()));
    assert!(claims.exp > claims.iat);
}

#[test]
fn test_extract_token_from_header() {
    let header = "Bearer my-token-123";
    let token = extract_token_from_header(Some(header));
    assert_eq!(token, Some("my-token-123".to_string()));

    let invalid_header = "InvalidFormat token";
    let token = extract_token_from_header(Some(invalid_header));
    assert_eq!(token, None);
}

#[test]
fn test_require_role() {
    let admin_claims = Claims::new("admin".to_string(), Some("admin".to_string()));
    assert!(require_role(&admin_claims, "admin", true).is_ok());
    assert!(require_role(&admin_claims, "user", true).is_err());

    let user_claims = Claims::new("user".to_string(), Some("user".to_string()));
    assert!(require_role(&user_claims, "admin", true).is_err());
    assert!(require_role(&user_claims, "user", true).is_ok());
}

#[test]
fn roles_are_not_checked_when_jwt_is_disabled() {
    let claims = Claims::new("someone".to_string(), None);
    assert!(require_role(&claims, "admin", false).is_ok());
    assert!(matches!(require_role(&claims, "admin", true), Err(AuthError::InvalidToken)));
}

#[test]
fn claims_last_a_day_and_custom_durations() {
    let c = Claims::new("u".to_string(), None);
    assert_eq!(c.exp - c.iat, DAY_SECS);
    let c = Claims::with_expiration("u".to_string(), None, 3600);
    assert_eq!(c.exp - c.iat, 3600);
    let c = Claims::issued_at("u".to_string(), None, 1_000, 60);
    assert_eq!((c.iat, c.exp), (1_000, 1_060));
}

#[test]
fn missing_or_malformed_headers_give_no_token() {
    assert_eq!(extract_token_from_header(None), None);
    assert_eq!(extract_token_from_header(Some("Bearer")), None);
    assert_eq!(extract_token_from_header(Some("bearer abc")), None);
}

#[test]
fn error_responses() {
    assert_eq!(AuthError::MissingToken.response_parts(), (401, "Missing or invalid Authorization header"));
    assert_eq!(AuthError::InvalidToken.response_parts(), (401, "Invalid or expired token"));
}

#[test]
fn jwt_mode_follows_the_secret() {
    assert!(matches!(jwt_mode_from_secret(None), Ok(JwtMode::Disabled)));
    assert!(matches!(jwt_mode_from_secret(Some("   ")), Ok(JwtMode::Disabled)));
    assert_eq!(jwt_mode_from_secret(Some("s3cret")).err(), Some("JWT_SECRET must be at least 32 characters long"));
    let long = "k".repeat(32);
    assert!(matches!(jwt_mode_from_secret(Some(&long)), Ok(JwtMode::Enabled(s)) if s == long));
}

#[test]
fn anonymous_claims_are_the_anonymous_user() {
    let c = anonymous_claims(100);
    assert_eq!(c.sub, "anonymous");
}
