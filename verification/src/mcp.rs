//! The rules of the built-in MCP server: who may call it, how a request is
//! routed, and the connection token.
//!
//! The server listens on 127.0.0.1 only, wants `Authorization: Bearer <token>`
//! with a token made at each start, and, when an `Origin` is sent, accepts
//! only local origins (against DNS rebinding from a browser).

use vstd::prelude::*;
use std::sync::atomic::AtomicBool;
use std::sync::Arc;
use serde_json::Value;
use crate::protocol::{initialize_result, negotiated, initialize_value, ErrorObject, Request, Response};
use crate::text::{
    before_char, before_char_of, chars_eq, chars_of, find_char, find_from, lemma_find_from, find_seq, find_seq_from, push_char, push_str,
    str_eq, sub_chars, trim_bounds, trimmed,
};

verus! {

/// The port the server listens on.
pub const PORT: u16 = 3737;

/// The setting that remembers whether the server is on.
pub const SETTING_KEY: &'static str = "mcp_enabled";

/// What the settings screen shows of the server: whether it runs, where, the
/// token a client needs (new at each launch), and why it last failed to start.
#[derive(Debug, Clone)]
pub struct McpStatus {
    pub enabled: bool,
    pub port: u16,
    pub token: String,
    pub error: Option<String>,
}

impl McpStatus {
    /// The status of a server that is running or not, with its token and the
    /// reason of a failed start, if any; the port is always `PORT`.
    pub fn new(enabled: bool, token: &str, error: Option<String>) -> (s: Self)
        ensures
            s.enabled == enabled,
            s.port == PORT,
            s.token@ == token@,
            s.error == error,
    {
        McpStatus { enabled, port: PORT, token: String::from_str(token), error }
    }
}

/// A host with its `:port` taken off: a bracketed IPv6 host (`[::1]:3737`)
/// keeps everything up to its `]`; a bare IPv6 address (two or more `:`)
/// has no port and stays whole; any other host is cut at its `:`.
pub open spec fn strip_port(seg: Seq<char>) -> Seq<char> {
    if seg.len() > 0 && seg[0] == '[' {
        match find_from(seg, 0, ']') {
            Some(i) => seg.take(i + 1),
            None => seg,
        }
    } else {
        match find_from(seg, 0, ':') {
            Some(i) => if find_from(seg, i + 1, ':') is Some { seg } else { seg.take(i) },
            None => seg,
        }
    }
}

/// The host named by an `Origin` value, as the server reads it: the piece
/// after the first `://` (up to a second one), cut at the first `/`, without
/// its port. Empty without a `://`.
pub open spec fn origin_host(cs: Seq<char>) -> Seq<char> {
    match find_seq_from(cs, "://"@, 0) {
        Some(p) => {
            let seg = match find_seq_from(cs, "://"@, p + 3) {
                Some(q) => cs.subrange(p + 3, q),
                None => cs.subrange(p + 3, cs.len() as int),
            };
            strip_port(before_char(seg, '/'))
        },
        None => seq![],
    }
}

/// Takes the port off a host (see `strip_port`).
fn host_without_port(seg: &Vec<char>) -> (r: Vec<char>)
    ensures
        r@ == strip_port(seg@),
{
    let n = seg.len();
    if n > 0 && seg[0] == '[' {
        proof {
            lemma_find_from(seg@, 0, ']');
        }
        match find_char(seg, 0, ']') {
            Some(i) => {
                let r = sub_chars(seg, 0, i + 1);
                assert(r@ == seg@.take(i + 1));
                r
            },
            None => sub_chars(seg, 0, n),
        }
    } else {
        proof {
            lemma_find_from(seg@, 0, ':');
        }
        match find_char(seg, 0, ':') {
            Some(i) => match find_char(seg, i + 1, ':') {
                Some(_) => {
                    let r = sub_chars(seg, 0, n);
                    assert(r@ == seg@);
                    r
                },
                None => {
                    let r = sub_chars(seg, 0, i);
                    assert(r@ == seg@.take(i as int));
                    r
                },
            },
            None => {
                let r = sub_chars(seg, 0, n);
                assert(r@ == seg@);
                r
            },
        }
    }
}

pub open spec fn local_host(host: Seq<char>) -> bool {
    host == "localhost"@ || host == "127.0.0.1"@ || host == "[::1]"@ || host == "::1"@
}

/// Requests without an `Origin` (command-line and MCP clients send none)
/// pass; with one, only local hosts pass.
pub open spec fn origin_ok(origin: Option<Seq<char>>) -> bool {
    match origin {
        None => true,
        Some(o) => local_host(origin_host(o)),
    }
}

/// The `Origin` header, as text, decides whether the request may go on.
pub fn origin_allowed(origin: Option<&str>) -> (b: bool)
    ensures
        b == origin_ok(match origin { Some(o) => Some(o@), None => None }),
{
    let o = match origin {
        None => { return true; },
        Some(o) => o,
    };
    let cs = chars_of(o);
    let sep = chars_of("://");
    proof {
        reveal_strlit("://");
    }
    let host = match find_seq(&cs, &sep, 0) {
        Some(p) => {
            proof {
                lemma_find_seq_found(cs@, sep@, 0, p as int);
            }
            let n = cs.len();
            assert(p + 3 <= n);
            let next = match find_seq(&cs, &sep, p + 3) {
                Some(q) => {
                    proof {
                        lemma_find_seq_found(cs@, sep@, p + 3, q as int);
                    }
                    q
                },
                None => cs.len(),
            };
            let seg = sub_chars(&cs, p + 3, next);
            let path = before_char_of(&seg, '/');
            host_without_port(&path)
        },
        None => Vec::new(),
    };
    chars_eq(&host, "localhost") || chars_eq(&host, "127.0.0.1") || chars_eq(&host, "[::1]")
        || chars_eq(&host, "::1")
}

proof fn lemma_find_seq_found(cs: Seq<char>, pat: Seq<char>, start: int, p: int)
    requires
        find_seq_from(cs, pat, start) == Some(p),
    ensures
        start <= p,
        crate::text::occurs_at(cs, pat, p),
    decreases cs.len() + 1 - start,
{
    if !(start < 0 || start + pat.len() > cs.len()) && !crate::text::occurs_at(cs, pat, start) {
        lemma_find_seq_found(cs, pat, start + 1, p);
    }
}

/// The `Authorization` value carries `Bearer ` and then, up to surrounding
/// white space, exactly the expected token.
pub open spec fn bearer_matches(authorization: Option<Seq<char>>, expected: Seq<char>) -> bool {
    match authorization {
        Some(a) => a.len() >= 7 && a.take(7) == "Bearer "@ && trimmed(a.skip(7)) == expected,
        None => false,
    }
}

/// Checks the `Authorization` header against the server's token.
pub fn bearer_ok(authorization: Option<&str>, expected: &str) -> (b: bool)
    ensures
        b == bearer_matches(match authorization { Some(a) => Some(a@), None => None }, expected@),
{
    let a = match authorization {
        None => { return false; },
        Some(a) => a,
    };
    let cs = chars_of(a);
    let prefix = chars_of("Bearer ");
    proof {
        reveal_strlit("Bearer ");
    }
    if cs.len() < 7 {
        return false;
    }
    let head = sub_chars(&cs, 0, 7);
    if !chars_eq(&head, "Bearer ") {
        assert(head@ == cs@.take(7));
        return false;
    }
    let (from, to) = trim_bounds(&cs, 7, cs.len());
    let token = sub_chars(&cs, from, to);
    proof {
        assert(cs@.subrange(7, cs@.len() as int) == cs@.skip(7));
    }
    chars_eq(&token, expected)
}

/// What the server does with an HTTP request.
#[derive(Debug, Clone, Copy, PartialEq, Eq, Structural)]
pub enum Route {
    /// 403: the origin is not local.
    Forbidden,
    /// 401: the bearer token is missing or wrong.
    Unauthorized,
    /// The body is not a JSON-RPC request: answer a parse error (-32700).
    ParseError,
    /// A notification (no id): accept it with no body.
    Notification,
    Initialize,
    Ping,
    ToolsList,
    ToolsCall,
    /// Answer "method not found" (-32601).
    UnknownMethod,
}

/// JSON-RPC error codes the server answers with.
pub const PARSE_ERROR: i32 = -32700;
pub const METHOD_NOT_FOUND: i32 = -32601;
pub const INTERNAL_ERROR: i32 = -32603;

/// The route of a request by its method name (for a request with an id).
pub open spec fn method_route(method: Seq<char>) -> Route {
    if method == "initialize"@ { Route::Initialize }
    else if method == "ping"@ { Route::Ping }
    else if method == "tools/list"@ { Route::ToolsList }
    else if method == "tools/call"@ { Route::ToolsCall }
    else { Route::UnknownMethod }
}

/// The checks in order: origin, token, body, notification, method.
pub open spec fn route_of(
    origin: Option<Seq<char>>,
    authorization: Option<Seq<char>>,
    token: Seq<char>,
    parsed: Option<(bool, Seq<char>)>,
) -> Route {
    if !origin_ok(origin) {
        Route::Forbidden
    } else if !bearer_matches(authorization, token) {
        Route::Unauthorized
    } else {
        match parsed {
            None => Route::ParseError,
            Some((has_id, method)) => if !has_id { Route::Notification } else { method_route(method) },
        }
    }
}

/// Routes a request given its `Origin` and `Authorization` headers and the
/// parsed body (`None` when the body is not a JSON-RPC request).
pub fn route(origin: Option<&str>, authorization: Option<&str>, token: &str, request: Option<&Request>) -> (r: Route)
    ensures
        r == route_of(
            match origin { Some(o) => Some(o@), None => None },
            match authorization { Some(a) => Some(a@), None => None },
            token@,
            match request { Some(q) => Some((q.id is Some, q.method@)), None => None },
        ),
{
    if !origin_allowed(origin) {
        return Route::Forbidden;
    }
    if !bearer_ok(authorization, token) {
        return Route::Unauthorized;
    }
    match request {
        None => Route::ParseError,
        Some(q) => {
            if q.id.is_none() {
                Route::Notification
            } else {
                let m = q.method.as_str();
                if str_eq(m, "initialize") { Route::Initialize }
                else if str_eq(m, "ping") { Route::Ping }
                else if str_eq(m, "tools/list") { Route::ToolsList }
                else if str_eq(m, "tools/call") { Route::ToolsCall }
                else { Route::UnknownMethod }
            }
        },
    }
}

/// The answer to an unknown method: `method not found: <method>`.
pub fn method_not_found(id: Value, method: &str) -> (r: Response)
    ensures
        r.id == id,
        r.result is None,
        r.error matches Some(e) && e.code == -32601 && e.message@ == "method not found: "@ + method@,
{
    let mut message = String::new();
    push_str(&mut message, "method not found: ");
    push_str(&mut message, method);
    Response::err(id, METHOD_NOT_FOUND, message)
}

/// The answer to a body that is not a request: `parse error: <detail>`.
pub fn parse_error(id: Value, detail: &str) -> (r: Response)
    ensures
        r.id == id,
        r.result is None,
        r.error matches Some(e) && e.code == -32700 && e.message@ == "parse error: "@ + detail@,
{
    let mut message = String::new();
    push_str(&mut message, "parse error: ");
    push_str(&mut message, detail);
    Response::err(id, PARSE_ERROR, message)
}

/// The answer when running a tool failed: `tool panicked: <detail>`.
pub fn tool_failure(id: Value, detail: &str) -> (r: Response)
    ensures
        r.id == id,
        r.result is None,
        r.error matches Some(e) && e.code == -32603 && e.message@ == "tool panicked: "@ + detail@,
{
    let mut message = String::new();
    push_str(&mut message, "tool panicked: ");
    push_str(&mut message, detail);
    Response::err(id, INTERNAL_ERROR, message)
}

/// The lowercase hexadecimal digit of `d < 16`.
pub open spec fn hex_char(d: nat) -> char {
    if d < 10 { crate::text::digit_char(d) }
    else if d == 10 { 'a' } else if d == 11 { 'b' } else if d == 12 { 'c' }
    else if d == 13 { 'd' } else if d == 14 { 'e' } else { 'f' }
}

/// Each byte as two lowercase hexadecimal digits (`{:02x}`).
pub open spec fn hex_of(bytes: Seq<u8>) -> Seq<char>
    decreases bytes.len(),
{
    if bytes.len() == 0 {
        seq![]
    } else {
        hex_of(bytes.drop_last()) + seq![hex_char((bytes.last() / 16) as nat), hex_char((bytes.last() % 16) as nat)]
    }
}

pub proof fn lemma_hex_of_len(bytes: Seq<u8>)
    ensures
        hex_of(bytes).len() == 2 * bytes.len(),
    decreases bytes.len(),
{
    if bytes.len() > 0 {
        lemma_hex_of_len(bytes.drop_last());
    }
}

fn hex_digit(d: u8) -> (c: char)
    requires
        d < 16,
    ensures
        c == hex_char(d as nat),
{
    if d < 10 {
        crate::text::digit(d as u64)
    } else if d == 10 { 'a' } else if d == 11 { 'b' } else if d == 12 { 'c' }
    else if d == 13 { 'd' } else if d == 14 { 'e' } else { 'f' }
}

/// The bytes in lowercase hexadecimal, two digits each.
pub fn hex_string(bytes: &Vec<u8>) -> (s: String)
    ensures
        s@ == hex_of(bytes@),
{
    let mut out = String::new();
    let mut i: usize = 0;
    while i < bytes.len()
        invariant
            i <= bytes@.len(),
            out@ == hex_of(bytes@.take(i as int)),
        decreases bytes@.len() - i,
    {
        let b = bytes[i];
        push_char(&mut out, hex_digit(b / 16));
        push_char(&mut out, hex_digit(b % 16));
        proof {
            assert(bytes@.take(i + 1).drop_last() == bytes@.take(i as int));
            assert(bytes@.take(i + 1).last() == b);
        }
        i = i + 1;
    }
    assert(bytes@.take(i as int) == bytes@);
    out
}

/// The little-endian bytes of `n`, as many as `count`.
pub open spec fn le_bytes(n: nat, count: nat) -> Seq<u8>
    decreases count,
{
    if count == 0 { seq![] } else { seq![(n % 256) as u8] + le_bytes(n / 256, (count - 1) as nat) }
}

/// `u128::to_le_bytes`, computed.
pub fn le_bytes_of(n: u128) -> (r: Vec<u8>)
    ensures
        r@ == le_bytes(n as nat, 16),
{
    let mut out: Vec<u8> = Vec::new();
    let mut rest = n;
    let mut i: usize = 0;
    while i < 16
        invariant
            i <= 16,
            out@ + le_bytes(rest as nat, (16 - i) as nat) == le_bytes(n as nat, 16),
        decreases 16 - i,
    {
        let prev = rest;
        out.push((prev % 256) as u8);
        rest = prev / 256;
        proof {
            assert(le_bytes(prev as nat, (16 - i) as nat)
                == seq![(prev % 256) as u8] + le_bytes(rest as nat, (16 - i - 1) as nat));
            assert(out@ + le_bytes(rest as nat, (16 - i - 1) as nat)
                =~= out@.drop_last() + le_bytes(prev as nat, (16 - i) as nat));
        }
        i = i + 1;
    }
    assert(le_bytes(rest as nat, 0) =~= Seq::<u8>::empty());
    assert(out@ =~= le_bytes(n as nat, 16));
    out
}

} // verus!
