use cycl::mcp::{
    bearer_ok, hex_string, le_bytes_of, method_not_found, origin_allowed, parse_error, route,
    tool_failure, Route,
};
use cycl::protocol::Request;
use cycl::server::{random_token, McpServer};
use serde_json::Value;

#[test]
fn requests_without_an_origin_are_allowed() {
    assert!(origin_allowed(None));
}

#[test]
fn localhost_origins_are_allowed() {
    assert!(origin_allowed(Some("http://localhost:5173")));
    assert!(origin_allowed(Some("http://127.0.0.1:3737")));
}

#[test]
fn remote_origins_are_rejected() {
    assert!(!origin_allowed(Some("http://evil.example.com")));
    assert!(!origin_allowed(Some("https://localhost.evil.example.com")));
}

#[test]
fn origin_host_is_cut_at_path_and_port() {
    assert!(origin_allowed(Some("http://localhost/some/path")));
    assert!(origin_allowed(Some("https://127.0.0.1")));
    assert!(!origin_allowed(Some("localhost")));
    assert!(!origin_allowed(Some("")));
    assert!(origin_allowed(Some("http://localhost:")));
}

#[test]
fn ipv6_loopback_origins_are_allowed() {
    assert!(origin_allowed(Some("http://[::1]:3737")));
    assert!(origin_allowed(Some("http://[::1]")));
    assert!(origin_allowed(Some("http://[::1]/mcp")));
    assert!(origin_allowed(Some("http://::1")));
    assert!(!origin_allowed(Some("http://[::2]:3737")));
    assert!(!origin_allowed(Some("http://[::1")));
}

#[test]
fn bearer_token_must_match_exactly() {
    let expected = "abc123";
    assert!(bearer_ok(Some("Bearer abc123"), expected));
    assert!(!bearer_ok(Some("Bearer nope"), expected));
    assert!(!bearer_ok(Some("abc123"), expected));
    assert!(!bearer_ok(None, expected));
}

#[test]
fn bearer_token_ignores_surrounding_white_space() {
    assert!(bearer_ok(Some("Bearer  abc123 \t"), "abc123"));
    assert!(!bearer_ok(Some("bearer abc123"), "abc123"));
    assert!(!bearer_ok(Some("Bearer abc1234"), "abc123"));
}

#[test]
fn tokens_are_long_and_unique() {
    let a = random_token();
    let b = random_token();
    assert_eq!(a.len(), 32);
    assert!(a.chars().all(|c| c.is_ascii_hexdigit()));
    assert_ne!(a, b);
}

#[test]
fn hex_and_little_endian_bytes() {
    assert_eq!(hex_string(&vec![0x00, 0xab, 0x0f, 0xff]), "00ab0fff");
    let bytes = le_bytes_of(0x0102);
    assert_eq!(bytes.len(), 16);
    assert_eq!(bytes[0], 2);
    assert_eq!(bytes[1], 1);
    assert!(bytes[2..].iter().all(|b| *b == 0));
}

#[test]
fn server_starts_stopped_with_a_token() {
    let server = McpServer::new();
    assert_eq!(server.token().len(), 32);
    assert!(!server.is_running());
    assert!(!server.claim_start());
    assert!(server.is_running());
    assert!(server.claim_start());
    server.stop();
    assert!(!server.is_running());
}

fn request(id: Option<i64>, method: &str) -> Request {
    Request {
        jsonrpc: Some("2.0".to_string()),
        id: id.map(Value::from),
        method: method.to_string(),
        params: Value::Null,
    }
}

#[test]
fn requests_are_routed_after_the_checks() {
    let token = "t0k";
    let auth = Some("Bearer t0k");
    assert_eq!(route(Some("http://evil.com"), auth, token, Some(&request(Some(1), "ping"))), Route::Forbidden);
    assert_eq!(route(None, Some("Bearer x"), token, Some(&request(Some(1), "ping"))), Route::Unauthorized);
    assert_eq!(route(None, auth, token, None), Route::ParseError);
    assert_eq!(route(None, auth, token, Some(&request(None, "notifications/initialized"))), Route::Notification);
    assert_eq!(route(None, auth, token, Some(&request(Some(1), "initialize"))), Route::Initialize);
    assert_eq!(route(None, auth, token, Some(&request(Some(1), "ping"))), Route::Ping);
    assert_eq!(route(None, auth, token, Some(&request(Some(1), "tools/list"))), Route::ToolsList);
    assert_eq!(route(Some("http://localhost:1"), auth, token, Some(&request(Some(1), "tools/call"))), Route::ToolsCall);
    assert_eq!(route(None, auth, token, Some(&request(Some(1), "resources/list"))), Route::UnknownMethod);
}

#[test]
fn error_responses_name_what_went_wrong() {
    let r = method_not_found(Value::from(3), "foo");
    assert_eq!(r.error.map(|e| (e.code, e.message)), Some((-32601, "method not found: foo".to_string())));
    let r = parse_error(Value::Null, "eof");
    assert_eq!(r.error.map(|e| (e.code, e.message)), Some((-32700, "parse error: eof".to_string())));
    let r = tool_failure(Value::from(4), "boom");
    assert_eq!(r.error.map(|e| (e.code, e.message)), Some((-32603, "tool panicked: boom".to_string())));
}

#[test]
fn status_carries_the_port_and_token() {
    let s = cycl::mcp::McpStatus::new(true, "abc", None);
    assert!(s.enabled);
    assert_eq!(s.port, 3737);
    assert_eq!(s.token, "abc");
    assert_eq!(s.error, None);
    let failed = cycl::mcp::McpStatus::new(false, "abc", Some("port in use".to_string()));
    assert_eq!(failed.error.as_deref(), Some("port in use"));
}
