use cycl::protocol::{
    initialize_result, negotiate_version, text_result, tool_error, Response, PROTOCOL_VERSION,
    SUPPORTED_VERSIONS,
};
use serde_json::Value;

#[test]
fn initialize_advertises_tools_capability() {
    let result = initialize_result(None);
    assert_eq!(result["protocolVersion"], PROTOCOL_VERSION);
    assert!(result["capabilities"]["tools"].is_object());
    assert_eq!(result["serverInfo"]["name"], "cycl");
}

#[test]
fn known_versions_are_echoed_back() {
    for version in SUPPORTED_VERSIONS {
        assert_eq!(negotiate_version(Some(version)), version);
        assert_eq!(initialize_result(Some(version))["protocolVersion"], version);
    }
}

#[test]
fn unknown_versions_fall_back_to_ours() {
    assert_eq!(negotiate_version(Some("2027-01-01")), PROTOCOL_VERSION);
    assert_eq!(negotiate_version(None), PROTOCOL_VERSION);
}

#[test]
fn the_default_version_is_the_newest_we_speak() {
    assert_eq!(SUPPORTED_VERSIONS[0], PROTOCOL_VERSION);
}

#[test]
fn responses_carry_either_a_result_or_an_error() {
    let mut payload = serde_json::Map::new();
    payload.insert("a".to_string(), Value::from(1));
    let ok = Response::ok(Value::from(1), Value::Object(payload));
    assert_eq!(ok.jsonrpc, "2.0");
    assert!(ok.error.is_none());

    let err = Response::err(Value::from(1), -32601, "nope".to_string());
    assert!(err.result.is_none());
    assert_eq!(err.error.as_ref().map(|e| e.code), Some(-32601));
    assert_eq!(err.error.map(|e| e.message), Some("nope".to_string()));
}

#[test]
fn tool_errors_are_flagged_in_the_payload() {
    let ok = text_result("done");
    assert!(ok.get("isError").is_none());
    assert_eq!(ok["content"][0]["type"], "text");

    let bad = tool_error("boom");
    assert_eq!(bad["isError"], true);
    assert_eq!(bad["content"][0]["text"], "boom");
}

#[test]
fn initialize_reports_the_server_version() {
    let result = initialize_result(Some("2024-11-05"));
    assert_eq!(result["protocolVersion"], "2024-11-05");
    assert_eq!(result["serverInfo"]["version"], "0.1.0");
    assert_eq!(result["capabilities"]["tools"].as_object().map(|m| m.len()), Some(0));
}
