//! The part of the Model Context Protocol that a tool server needs:
//! JSON-RPC 2.0 messages and the `initialize` version handshake.

use vstd::prelude::*;
use serde_json::Value;
use crate::json::{array1, json_bool, json_flag, json_list, json_map, json_string, json_text, object1, object2, object3};
use crate::text::str_eq;

verus! {

/// The version this server names when the client's is missing or unknown.
pub const PROTOCOL_VERSION: &'static str = "2025-06-18";

/// The MCP versions this server speaks, newest first.
pub const SUPPORTED_VERSIONS: [&'static str; 3] = ["2025-06-18", "2025-03-26", "2024-11-05"];

/// The server's own version, reported in `serverInfo`.
pub const SERVER_VERSION: &'static str = "0.1.0";

pub open spec fn supported(v: Seq<char>) -> bool {
    v == "2025-06-18"@ || v == "2025-03-26"@ || v == "2024-11-05"@
}

/// The version both sides use: the client's if this server speaks it, else the newest.
pub open spec fn negotiated(requested: Option<Seq<char>>) -> Seq<char> {
    match requested {
        Some(r) => if supported(r) { r } else { "2025-06-18"@ },
        None => "2025-06-18"@,
    }
}

/// Echoes a version this server speaks; otherwise names its newest and
/// leaves it to the client whether to go on.
pub fn negotiate_version(requested: Option<&str>) -> (v: &'static str)
    ensures
        v@ == negotiated(match requested { Some(r) => Some(r@), None => None }),
{
    match requested {
        Some(r) => {
            if str_eq(r, "2025-06-18") {
                "2025-06-18"
            } else if str_eq(r, "2025-03-26") {
                "2025-03-26"
            } else if str_eq(r, "2024-11-05") {
                "2024-11-05"
            } else {
                PROTOCOL_VERSION
            }
        },
        None => PROTOCOL_VERSION,
    }
}

/// A JSON-RPC request; a notification has no id and gets no response.
pub struct Request {
    pub jsonrpc: Option<String>,
    pub id: Option<Value>,
    pub method: String,
    pub params: Value,
}

#[derive(Debug)]
pub struct ErrorObject {
    pub code: i32,
    pub message: String,
}

/// A JSON-RPC response: exactly one of `result` and `error` is present.
pub struct Response {
    pub jsonrpc: &'static str,
    pub id: Value,
    pub result: Option<Value>,
    pub error: Option<ErrorObject>,
}

impl Response {
    pub fn ok(id: Value, result: Value) -> (r: Self)
        ensures
            r.jsonrpc@ == "2.0"@,
            r.id == id,
            r.result == Some(result),
            r.error is None,
    {
        Response { jsonrpc: "2.0", id, result: Some(result), error: None }
    }

    pub fn err(id: Value, code: i32, message: String) -> (r: Self)
        ensures
            r.jsonrpc@ == "2.0"@,
            r.id == id,
            r.result is None,
            r.error matches Some(e) && e.code == code && e.message@ == message@,
    {
        Response { jsonrpc: "2.0", id, result: None, error: Some(ErrorObject { code, message }) }
    }
}

/// The `initialize` result: the negotiated version, the `tools` capability
/// and the server's name and version.
pub open spec fn initialize_value(version: Seq<char>) -> Value {
    json_map(seq![
        ("protocolVersion"@, json_text(version)),
        ("capabilities"@, json_map(seq![("tools"@, json_map(seq![]))])),
        ("serverInfo"@, json_map(seq![("name"@, json_text("cycl"@)), ("version"@, json_text("0.1.0"@))])),
    ])
}

/// The answer to `initialize`; `requested` is the client's `params.protocolVersion`.
pub fn initialize_result(requested: Option<&str>) -> (v: Value)
    ensures
        v == initialize_value(negotiated(match requested { Some(r) => Some(r@), None => None })),
{
    let version = json_string(negotiate_version(requested));
    let tools = object1("tools", crate::json::json_object(Vec::new()));
    proof {
        assert(crate::json::entries_view(Seq::<(String, Value)>::empty()) =~= Seq::<(Seq<char>, Value)>::empty());
    }
    let info = object2("name", json_string("cycl"), "version", json_string(SERVER_VERSION));
    object3("protocolVersion", version, "capabilities", tools, "serverInfo", info)
}

/// The `content` list of a tool result: one text item.
pub open spec fn text_content(text: Seq<char>) -> Value {
    json_list(seq![json_map(seq![("type"@, json_text("text"@)), ("text"@, json_text(text))])])
}

fn content_of(text: &str) -> (v: Value)
    ensures
        v == text_content(text@),
{
    array1(object2("type", json_string("text"), "text", json_string(text)))
}

/// A successful `tools/call` result carrying one text item.
pub fn text_result(text: &str) -> (v: Value)
    ensures
        v == json_map(seq![("content"@, text_content(text@))]),
{
    object1("content", content_of(text))
}

/// A failed `tools/call` result: a tool failure is reported in the payload,
/// flagged `isError`, not as a JSON-RPC error.
pub fn tool_error(text: &str) -> (v: Value)
    ensures
        v == json_map(seq![("content"@, text_content(text@)), ("isError"@, json_flag(true))]),
{
    object2("content", content_of(text), "isError", json_bool(true))
}

} // verus!
