use semantic_browser::api_client::{retry_delay_secs, ApiClient, ApiClientConfig};
use semantic_browser::mcp::{
    check_initialize, tool_by_name, tool_to_call, McpRoute, McpSession, McpTool, INVALID_PARAMS, METHOD_NOT_FOUND,
    NOT_INITIALIZED,
};

#[test]
fn test_api_client_builder() {
    let client = ApiClient::new("https://api.example.com")
        .with_bearer_token("token123")
        .with_api_key("X-API-Key", "key456");

    assert_eq!(client.config.base_url, "https://api.example.com");
    assert!(client.config.default_headers.contains_key("authorization"));
    assert_eq!(client.config.default_headers.get("x-api-key"), Some(&"key456".to_string()));
    assert_eq!(client.config.default_headers.get("authorization"), Some(&"Bearer token123".to_string()));
}

#[test]
fn test_build_url() {
    let client = ApiClient::new("https://api.example.com");

    assert_eq!(client.build_url("/users"), "https://api.example.com/users");
    assert_eq!(client.build_url("https://other.com/data"), "https://other.com/data");
}

#[test]
fn build_url_drops_trailing_slashes_of_the_base() {
    let client = ApiClient::new("https://api.example.com//");
    assert_eq!(client.build_url("/v1"), "https://api.example.com/v1");
}

#[test]
fn test_api_client_config_default() {
    let config = ApiClientConfig::default();
    assert_eq!(config.timeout, 30);
    assert!(config.retry_enabled);
    assert_eq!(config.max_retries, 3);
}

#[test]
fn request_retry_schedule() {
    let mut config = ApiClientConfig::default();
    assert_eq!(config.attempts(), 4);
    config.retry_enabled = false;
    assert_eq!(config.attempts(), 1);
    assert_eq!(retry_delay_secs(0), 0);
    assert_eq!(retry_delay_secs(1), 1);
    assert_eq!(retry_delay_secs(4), 8);
}

#[test]
fn mcp_routing_requires_initialization() {
    let mut session = McpSession::new();
    assert_eq!(session.route_request("ping"), McpRoute::Ping);
    assert_eq!(
        session.route_request("tools/list"),
        McpRoute::Refuse { code: NOT_INITIALIZED, message: "Server not initialized".to_string() }
    );
    assert_eq!(session.route_request("initialize"), McpRoute::Initialize);
    session.complete_initialize();
    assert_eq!(session.route_request("tools/list"), McpRoute::ListTools);
    assert_eq!(session.route_request("tools/call"), McpRoute::CallTool);
    assert_eq!(
        session.route_request("resources/list"),
        McpRoute::Refuse { code: METHOD_NOT_FOUND, message: "Method not found".to_string() }
    );

    let mut other = McpSession::new();
    other.on_notification("notifications/cancelled");
    assert!(!other.initialized);
    other.on_notification("notifications/initialized");
    assert!(other.initialized);
}

#[test]
fn mcp_tool_names() {
    assert_eq!(tool_by_name("semanticbrowser.parse_html"), Some(McpTool::ParseHtml));
    assert_eq!(tool_by_name("semanticbrowser.query_kg"), Some(McpTool::QueryKg));
    assert_eq!(tool_by_name("semanticbrowser.browse_url"), Some(McpTool::BrowseUrl));
    assert_eq!(tool_by_name("other"), None);
}

#[test]
fn initialize_parameters_are_checked() {
    assert!(check_initialize(Some(r#"{"protocolVersion":"2025-06-18","clientInfo":{"name":"c"}}"#)).is_ok());
    let e = check_initialize(None).unwrap_err();
    assert_eq!((e.code, e.message.as_str()), (INVALID_PARAMS, "Missing protocolVersion"));
    let e = check_initialize(Some("[1,2]")).unwrap_err();
    assert_eq!((e.code, e.message.as_str()), (INVALID_PARAMS, "Invalid params for initialize"));
    let e = check_initialize(Some(r#"{"protocolVersion":3}"#)).unwrap_err();
    assert_eq!(e.message, "Missing protocolVersion");
}

#[test]
fn tool_calls_name_a_known_tool() {
    assert_eq!(tool_to_call(Some(r#"{"name":"semanticbrowser.query_kg","arguments":{}}"#)), Ok(McpTool::QueryKg));
    let e = tool_to_call(Some(r#"{"name":"nope"}"#)).unwrap_err();
    assert_eq!((e.code, e.message.as_str()), (METHOD_NOT_FOUND, "Unknown tool"));
    let e = tool_to_call(None).unwrap_err();
    assert_eq!((e.code, e.message.as_str()), (INVALID_PARAMS, "Missing tool name"));
    let e = tool_to_call(Some("\"x\"")).unwrap_err();
    assert_eq!((e.code, e.message.as_str()), (INVALID_PARAMS, "Invalid params for tools/call"));
}
