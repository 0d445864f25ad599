//! The MCP server core: the per-line transport step and the JSON-RPC
//! method dispatcher. Both are stateless; every function here is a
//! pure step from a request (or a fetch outcome) to the action the
//! front end must take.

use vstd::prelude::*;
use crate::IpInfo;
use crate::mcp::{
    Implementation, InitializeResult, JsonRpcError, JsonRpcRequest, JsonRpcResponse, JsonValue,
    RequestId, ResultBody, ServerCapabilities, Tool, ToolContent, ToolsCallResult,
    ToolsCapability, ToolsListResult, spec_call_params_of, spec_request_of, call_params_of_json,
    request_of_json,
};
use crate::wire::str_eq;

verus! {

/// What the transport loop must do with one input line: stay silent,
/// write one response line, or run the IP lookup and then write one
/// response line.
pub enum Action {
    Silent,
    Reply(JsonRpcResponse),
    FetchIpInfo { id: RequestId },
}

/// A whitespace character of a blank input line.
pub open spec fn is_space(c: char) -> bool {
    c == ' ' || c == '\t' || c == '\r' || c == '\n' || c == '\u{b}' || c == '\u{c}'
}

/// A line that consists of whitespace only (or of nothing at all).
pub open spec fn is_blank(s: Seq<char>) -> bool {
    forall|k: int| 0 <= k < s.len() ==> is_space(s[k])
}

/// The detail texts of an optional detail field, for stating error
/// responses.
pub open spec fn opt_text(o: Option<String>) -> Option<Seq<char>> {
    match o {
        Some(s) => Some(s@),
        None => None,
    }
}

/// An error response: protocol tag, echoed identifier, no result, and
/// an error object with exactly the given code, message and detail.
pub open spec fn error_response_shape(
    r: JsonRpcResponse,
    id: RequestId,
    code: int,
    message: Seq<char>,
    data: Option<Seq<char>>,
) -> bool {
    &&& r.jsonrpc@ == "2.0"@
    &&& r.id == id
    &&& r.result is None
    &&& match r.error {
        Some(e) => {
            &&& e.code as int == code
            &&& e.message@ == message
            &&& opt_text(e.data) == data
        },
        None => false,
    }
}

/// The fixed `initialize` result: protocol version, tool capability,
/// and this server's identity.
pub open spec fn is_initialize_response(r: JsonRpcResponse, id: RequestId) -> bool {
    &&& r.jsonrpc@ == "2.0"@
    &&& r.id == id
    &&& r.error is None
    &&& match r.result {
        Some(ResultBody::Init(ir)) => {
            &&& ir.protocol_version@ == "2024-11-05"@
            &&& ir.capabilities.tools is Some
            &&& ir.server_info.name@ == "ip-info-server"@
            &&& ir.server_info.version@ == "0.1.0"@
        },
        _ => false,
    }
}

/// The fixed `tools/list` result: exactly one tool, `get_ip_info`,
/// with its description and its empty-object input schema.
pub open spec fn is_tools_list_response(r: JsonRpcResponse, id: RequestId) -> bool {
    &&& r.jsonrpc@ == "2.0"@
    &&& r.id == id
    &&& r.error is None
    &&& match r.result {
        Some(ResultBody::ToolList(tl)) => {
            &&& tl.tools@.len() == 1
            &&& tl.tools@[0].name@ == "get_ip_info"@
            &&& tl.tools@[0].description@ == "获取当前机器的公网IP信息，包括IP地址、地理位置、ISP等"@
            &&& tl.tools@[0].input_schema@ == "{\"type\":\"object\",\"properties\":{},\"required\":[]}"@
        },
        _ => false,
    }
}

/// How a `tools/call` request is answered: missing parameters and
/// malformed parameters are parameter errors, an unknown tool name is
/// a parameter error naming the tool, and `get_ip_info` asks the
/// front end to run the lookup.
pub open spec fn is_tools_call_action(a: Action, id: RequestId, params: Option<JsonValue>) -> bool {
    match params {
        None => a matches Action::Reply(r) && error_response_shape(
            r,
            id,
            -32602,
            "Missing params"@,
            None,
        ),
        Some(p) => match spec_call_params_of(p) {
            Err(detail) => a matches Action::Reply(r) && error_response_shape(
                r,
                id,
                -32602,
                "Invalid params"@,
                Some(detail),
            ),
            Ok(cp) => if cp.name@ == "get_ip_info"@ {
                a == (Action::FetchIpInfo { id })
            } else {
                a matches Action::Reply(r) && error_response_shape(
                    r,
                    id,
                    -32602,
                    "Unknown tool: "@ + cp.name@,
                    None,
                )
            },
        },
    }
}

/// The routing table: the three supported methods and the
/// method-not-found fallback.
pub open spec fn is_request_action(a: Action, req: JsonRpcRequest) -> bool {
    if req.method@ == "initialize"@ {
        a matches Action::Reply(r) && is_initialize_response(r, req.id)
    } else if req.method@ == "tools/list"@ {
        a matches Action::Reply(r) && is_tools_list_response(r, req.id)
    } else if req.method@ == "tools/call"@ {
        is_tools_call_action(a, req.id, req.params)
    } else {
        a matches Action::Reply(r) && error_response_shape(
            r,
            req.id,
            -32601,
            "Method not found"@,
            None,
        )
    }
}

/// The response to one line that could not be read as a request: a
/// parse error with a null identifier and the decoder's detail text.
pub open spec fn is_parse_error_response(r: JsonRpcResponse, detail: Seq<char>) -> bool {
    error_response_shape(r, RequestId::Null, -32700, "Parse error"@, Some(detail))
}

/// The result of a completed `get_ip_info` call: one text block,
/// holding the rendered record on success and a flagged failure
/// message otherwise — a tool failure is not a protocol failure.
pub open spec fn is_tool_call_response(
    r: JsonRpcResponse,
    id: RequestId,
    outcome: Result<IpInfo, String>,
) -> bool {
    &&& r.jsonrpc@ == "2.0"@
    &&& r.id == id
    &&& r.error is None
    &&& match r.result {
        Some(ResultBody::ToolCall(tc)) => {
            &&& tc.content@.len() == 1
            &&& tc.content@[0].content_type@ == "text"@
            &&& match outcome {
                Ok(info) => tc.is_error is None && tc.content@[0].text@ == info.render_text(),
                Err(e) => tc.is_error == Some(true) && tc.content@[0].text@ == "获取IP信息失败: "@
                    + e@,
            }
        },
        _ => false,
    }
}

/// The declared form of the JSON value type of the serde_json parser.
#[verifier::external_type_specification]
#[verifier::external_body]
pub struct ExSerdeJsonValue(serde_json::Value);

/// What parsing one line gives: a JSON value, or the decoder's
/// description of the malformation. The outcome is a function of the
/// line alone, so it carries a name; which lines parse is the outside
/// parser's own fact.
pub uninterp spec fn spec_parse(s: Seq<char>) -> Result<JsonValue, Seq<char>>;

/// Relies on serde_json::Value: its six variants map one for one onto
/// `JsonValue`; a number becomes the text the parser renders for it.
#[verifier::external_body]
fn json_of_value(v: serde_json::Value) -> (j: JsonValue) {
    match v {
        serde_json::Value::Null => JsonValue::Null,
        serde_json::Value::Bool(b) => JsonValue::Bool(b),
        serde_json::Value::Number(n) => JsonValue::Num(n.to_string()),
        serde_json::Value::String(s) => JsonValue::Str(s),
        serde_json::Value::Array(a) => JsonValue::Arr(a.into_iter().map(json_of_value).collect()),
        serde_json::Value::Object(m) => JsonValue::Obj(
            m.into_iter().map(|(k, x)| (k, json_of_value(x))).collect(),
        ),
    }
}

/// Relies on serde_json::from_str: reads one JSON document from the
/// line — the result named `spec_parse(s@)` — or reports the
/// decoder's description of the malformation.
#[verifier::external_body]
fn parse_line(s: &str) -> (r: Result<JsonValue, String>)
    ensures
        match (r, spec_parse(s@)) {
            (Ok(j), Ok(sj)) => j == sj,
            (Err(e), Err(se)) => e@ == se,
            _ => false,
        },
{
    match serde_json::from_str::<serde_json::Value>(s) {
        Ok(v) => Ok(json_of_value(v)),
        Err(e) => Err(e.to_string()),
    }
}

/// Whether a line is whitespace only, exactly as `is_blank` says.
pub fn blank_line(s: &str) -> (r: bool)
    ensures
        r == is_blank(s@),
{
    let n = s.unicode_len();
    let mut i: usize = 0;
    while i < n
        invariant
            i <= n,
            n == s@.len(),
            forall|k: int| 0 <= k < i ==> is_space(s@[k]),
        decreases n - i,
    {
        let c = s.get_char(i);
        if !(c == ' ' || c == '\t' || c == '\r' || c == '\n' || c == '\u{b}' || c == '\u{c}') {
            return false;
        }
        i = i + 1;
    }
    true
}

/// Builds an error response with the given code, message and detail.
fn reply_error(id: RequestId, code: i32, message: String, data: Option<String>) -> (r:
    JsonRpcResponse)
    ensures
        error_response_shape(r, id, code as int, message@, opt_text(data)),
{
    JsonRpcResponse {
        jsonrpc: String::from_str("2.0"),
        id,
        result: None,
        error: Some(JsonRpcError { code, message, data }),
    }
}

/// The stateless MCP server: a dispatch table from method names to
/// the three behaviours, holding nothing between requests.
pub struct McpServer {}

impl McpServer {
    /// A server value; it carries no state.
    pub fn new() -> (s: McpServer) {
        McpServer {  }
    }

    /// Answers `initialize`: the fixed protocol version, capability
    /// set and server identity. Parameters are accepted unvalidated.
    pub fn handle_initialize(&self, id: RequestId, _params: Option<JsonValue>) -> (r:
        JsonRpcResponse)
        ensures
            is_initialize_response(r, id),
    {
        let result = InitializeResult {
            protocol_version: String::from_str("2024-11-05"),
            capabilities: ServerCapabilities { tools: Some(ToolsCapability {  }) },
            server_info: Implementation {
                name: String::from_str("ip-info-server"),
                version: String::from_str("0.1.0"),
            },
        };
        JsonRpcResponse {
            jsonrpc: String::from_str("2.0"),
            id,
            result: Some(ResultBody::Init(result)),
            error: None,
        }
    }

    /// Answers `tools/list`: the static one-element tool table.
    pub fn handle_tools_list(&self, id: RequestId) -> (r: JsonRpcResponse)
        ensures
            is_tools_list_response(r, id),
    {
        let tool = Tool {
            name: String::from_str("get_ip_info"),
            description: String::from_str("获取当前机器的公网IP信息，包括IP地址、地理位置、ISP等"),
            input_schema: String::from_str("{\"type\":\"object\",\"properties\":{},\"required\":[]}"),
        };
        let mut tools: Vec<Tool> = Vec::new();
        tools.push(tool);
        JsonRpcResponse {
            jsonrpc: String::from_str("2.0"),
            id,
            result: Some(ResultBody::ToolList(ToolsListResult { tools })),
            error: None,
        }
    }

    /// Answers `tools/call` up to the lookup itself: validates the
    /// parameters and the tool name, and hands `get_ip_info` to the
    /// front end as a fetch action.
    pub fn handle_tools_call(&self, id: RequestId, params: Option<JsonValue>) -> (a: Action)
        ensures
            is_tools_call_action(a, id, params),
    {
        let p = match params {
            Some(p) => p,
            None => {
                return Action::Reply(
                    reply_error(id, -32602, String::from_str("Missing params"), None),
                );
            },
        };
        match call_params_of_json(p) {
            Err(detail) => Action::Reply(
                reply_error(id, -32602, String::from_str("Invalid params"), Some(detail)),
            ),
            Ok(cp) => {
                if str_eq(cp.name.as_str(), "get_ip_info") {
                    Action::FetchIpInfo { id }
                } else {
                    let mut message = String::from_str("Unknown tool: ");
                    message.append(cp.name.as_str());
                    Action::Reply(reply_error(id, -32602, message, None))
                }
            },
        }
    }

    /// Routes one request by method name: `initialize`, `tools/list`,
    /// `tools/call`, or the method-not-found error.
    pub fn handle_request(&self, req: JsonRpcRequest) -> (a: Action)
        ensures
            is_request_action(a, req),
            !(a is Silent),
    {
        let JsonRpcRequest { jsonrpc: _, id, method, params } = req;
        if str_eq(method.as_str(), "initialize") {
            Action::Reply(self.handle_initialize(id, params))
        } else if str_eq(method.as_str(), "tools/list") {
            Action::Reply(self.handle_tools_list(id))
        } else if str_eq(method.as_str(), "tools/call") {
            self.handle_tools_call(id, params)
        } else {
            Action::Reply(reply_error(id, -32601, String::from_str("Method not found"), None))
        }
    }

    /// Answers a completed `get_ip_info` call. A failed lookup is
    /// reported inside a successful envelope with the error flag set,
    /// never as a protocol error.
    pub fn tool_call_response(&self, id: RequestId, outcome: Result<IpInfo, String>) -> (r:
        JsonRpcResponse)
        ensures
            is_tool_call_response(r, id, outcome),
    {
        let (text, flag) = match outcome {
            Ok(info) => (info.render(), None),
            Err(e) => {
                let mut t = String::from_str("获取IP信息失败: ");
                t.append(e.as_str());
                (t, Some(true))
            },
        };
        let mut content: Vec<ToolContent> = Vec::new();
        content.push(ToolContent { content_type: String::from_str("text"), text });
        JsonRpcResponse {
            jsonrpc: String::from_str("2.0"),
            id,
            result: Some(ResultBody::ToolCall(ToolsCallResult { content, is_error: flag })),
            error: None,
        }
    }

    /// Routes the outcome of parsing one non-blank line: a
    /// malformation or an ill-shaped request is a parse error with a
    /// null identifier, and a well-formed request is dispatched.
    pub fn handle_parsed(&self, parsed: Result<JsonValue, String>) -> (a: Action)
        ensures
            !(a is Silent),
            match parsed {
                Err(e) => a matches Action::Reply(r) && is_parse_error_response(r, e@),
                Ok(v) => match spec_request_of(v) {
                    Err(detail) => a matches Action::Reply(r) && is_parse_error_response(
                        r,
                        detail,
                    ),
                    Ok(req) => is_request_action(a, req),
                },
            },
    {
        match parsed {
            Err(e) => Action::Reply(
                reply_error(RequestId::Null, -32700, String::from_str("Parse error"), Some(e)),
            ),
            Ok(v) => match request_of_json(v) {
                Err(detail) => Action::Reply(
                    reply_error(
                        RequestId::Null,
                        -32700,
                        String::from_str("Parse error"),
                        Some(detail),
                    ),
                ),
                Ok(req) => self.handle_request(req),
            },
        }
    }

    /// One step of the transport loop: a blank line is skipped without
    /// any output, and every other line gets exactly one action —
    /// output lines match non-blank input lines one for one. A line
    /// that does not parse, or does not read as a request, is answered
    /// with the parse error; a request is routed by the dispatch table.
    pub fn handle_line(&self, line: &str) -> (a: Action)
        ensures
            is_blank(line@) <==> (a is Silent),
            !is_blank(line@) ==> match spec_parse(line@) {
                Err(e) => a matches Action::Reply(r) && is_parse_error_response(r, e),
                Ok(v) => match spec_request_of(v) {
                    Err(detail) => a matches Action::Reply(r) && is_parse_error_response(
                        r,
                        detail,
                    ),
                    Ok(req) => is_request_action(a, req),
                },
            },
    {
        if blank_line(line) {
            return Action::Silent;
        }
        let parsed = parse_line(line);
        self.handle_parsed(parsed)
    }
}

/// Law: every action produced for a request carries the request's own
/// identifier — the response echoes `id` verbatim, whatever the
/// method and whatever the parameters.
pub proof fn lemma_request_action_echoes_id(a: Action, req: JsonRpcRequest)
    requires
        is_request_action(a, req),
    ensures
        match a {
            Action::Reply(r) => r.id == req.id,
            Action::FetchIpInfo { id } => id == req.id,
            Action::Silent => false,
        },
{
}

/// Law: every reply produced for a request populates exactly one of
/// `result` and `error` — never both, never neither.
pub proof fn lemma_request_reply_populates_exactly_one(a: Action, req: JsonRpcRequest)
    requires
        is_request_action(a, req),
    ensures
        match a {
            Action::Reply(r) => (r.result is Some) != (r.error is Some),
            _ => true,
        },
{
}

/// Law: the parse error response and the response to a completed
/// lookup populate exactly one of `result` and `error` as well.
pub proof fn lemma_other_replies_populate_exactly_one(
    r1: JsonRpcResponse,
    detail: Seq<char>,
    r2: JsonRpcResponse,
    id: RequestId,
    outcome: Result<IpInfo, String>,
)
    requires
        is_parse_error_response(r1, detail),
        is_tool_call_response(r2, id, outcome),
    ensures
        (r1.result is Some) != (r1.error is Some),
        (r2.result is Some) != (r2.error is Some),
{
}

/// Law: the response to a completed lookup also echoes the identifier
/// that the fetch action carried, so the echo holds across the
/// lookup as well.
pub proof fn lemma_tool_call_response_echoes_id(
    r: JsonRpcResponse,
    id: RequestId,
    outcome: Result<IpInfo, String>,
)
    requires
        is_tool_call_response(r, id, outcome),
    ensures
        r.id == id,
{
}

} // verus!
