//! The JSON-RPC 2.0 / MCP data model: requests, responses, error
//! objects, and the typed result payloads of the three supported
//! methods, together with the extraction of requests and tool-call
//! parameters from a generic JSON value.

use vstd::prelude::*;
use crate::wire::str_eq;

verus! {

/// A JSON value, as it arrives from a client. A number holds the text
/// the parser renders for it, so that it can be echoed as it stands.
pub enum JsonValue {
    Null,
    Bool(bool),
    Num(String),
    Str(String),
    Arr(Vec<JsonValue>),
    Obj(Vec<(String, JsonValue)>),
}

/// A request identifier: absent/null, a number (held as the text the
/// parser renders for it), or a string. A response echoes it verbatim.
pub enum RequestId {
    Null,
    Num(String),
    Str(String),
}

/// A JSON-RPC request.
pub struct JsonRpcRequest {
    pub jsonrpc: String,
    pub id: RequestId,
    pub method: String,
    pub params: Option<JsonValue>,
}

/// A JSON-RPC response. Exactly one of `result` and `error` is
/// populated by every constructor in this crate.
pub struct JsonRpcResponse {
    pub jsonrpc: String,
    pub id: RequestId,
    pub result: Option<ResultBody>,
    pub error: Option<JsonRpcError>,
}

/// A JSON-RPC error object. `data`, when present, holds the detail
/// text that the encoder wraps as `{"details": ...}`.
pub struct JsonRpcError {
    pub code: i32,
    pub message: String,
    pub data: Option<String>,
}

/// The result payload of a successful response, one variant per
/// supported method.
pub enum ResultBody {
    Init(InitializeResult),
    ToolList(ToolsListResult),
    ToolCall(ToolsCallResult),
}

/// The parameters of an `initialize` request. They are accepted but
/// not validated; the type records the protocol shape.
pub struct InitializeParams {
    pub protocol_version: String,
    pub capabilities: ClientCapabilities,
    pub client_info: Implementation,
}

/// What a client declares it can do.
pub struct ClientCapabilities {
    pub roots: Option<JsonValue>,
    pub sampling: Option<JsonValue>,
}

/// The name and version of one protocol participant.
pub struct Implementation {
    pub name: String,
    pub version: String,
}

/// The result of `initialize`.
pub struct InitializeResult {
    pub protocol_version: String,
    pub capabilities: ServerCapabilities,
    pub server_info: Implementation,
}

/// What this server declares it can do.
pub struct ServerCapabilities {
    pub tools: Option<ToolsCapability>,
}

/// The (currently empty) tool capability marker.
pub struct ToolsCapability {}

/// One tool descriptor. `input_schema` holds the schema as JSON text,
/// emitted verbatim by the encoder.
pub struct Tool {
    pub name: String,
    pub description: String,
    pub input_schema: String,
}

/// The result of `tools/list`.
pub struct ToolsListResult {
    pub tools: Vec<Tool>,
}

/// The parameters of `tools/call`.
pub struct ToolsCallParams {
    pub name: String,
    pub arguments: Option<JsonValue>,
}

/// The result of `tools/call`.
pub struct ToolsCallResult {
    pub content: Vec<ToolContent>,
    pub is_error: Option<bool>,
}

/// One content block of a tool result.
pub struct ToolContent {
    pub content_type: String,
    pub text: String,
}

/// The binding of `key` among the members of a JSON object, where a
/// later binding of the same key wins, as when a JSON parser keeps the
/// last duplicate.
pub open spec fn lookup(fields: Seq<(String, JsonValue)>, key: Seq<char>) -> Option<JsonValue>
    decreases fields.len(),
{
    if fields.len() == 0 {
        None
    } else if fields.last().0@ == key {
        Some(fields.last().1)
    } else {
        lookup(fields.drop_last(), key)
    }
}

/// The first option if it is populated, the second otherwise.
pub open spec fn opt_or<T>(a: Option<T>, b: Option<T>) -> Option<T> {
    if a is Some {
        a
    } else {
        b
    }
}

/// An optional member read as an optional value: an absent or null
/// member is no value at all.
pub open spec fn spec_params_of(o: Option<JsonValue>) -> Option<JsonValue> {
    match o {
        None => None,
        Some(JsonValue::Null) => None,
        Some(x) => Some(x),
    }
}

/// A member read as a request identifier, if it has one of the three
/// admissible shapes.
pub open spec fn spec_id_of(v: JsonValue) -> Option<RequestId> {
    match v {
        JsonValue::Null => Some(RequestId::Null),
        JsonValue::Num(s) => Some(RequestId::Num(s)),
        JsonValue::Str(s) => Some(RequestId::Str(s)),
        _ => None,
    }
}

/// How a parsed JSON value reads as a JSON-RPC request: an object with
/// string members `jsonrpc` and `method`, an optional identifier and
/// optional `params`; anything else is rejected with a detail text.
pub open spec fn spec_request_of(v: JsonValue) -> Result<JsonRpcRequest, Seq<char>> {
    match v {
        JsonValue::Obj(fields) => match lookup(fields@, "jsonrpc"@) {
            Some(JsonValue::Str(jv)) => match lookup(fields@, "method"@) {
                Some(JsonValue::Str(m)) => {
                    let idv = match lookup(fields@, "id"@) {
                        None => Some(RequestId::Null),
                        Some(x) => spec_id_of(x),
                    };
                    match idv {
                        Some(id) => Ok(
                            JsonRpcRequest {
                                jsonrpc: jv,
                                id: id,
                                method: m,
                                params: spec_params_of(lookup(fields@, "params"@)),
                            },
                        ),
                        None => Err("invalid request: id must be a string, a number, or null"@),
                    }
                },
                Some(_) => Err("invalid request: method must be a string"@),
                None => Err("invalid request: missing field method"@),
            },
            Some(_) => Err("invalid request: jsonrpc must be a string"@),
            None => Err("invalid request: missing field jsonrpc"@),
        },
        _ => Err("invalid request: a request must be a JSON object"@),
    }
}

/// How a `params` value reads as `tools/call` parameters: an object
/// with a string member `name` and optional `arguments`.
pub open spec fn spec_call_params_of(p: JsonValue) -> Result<ToolsCallParams, Seq<char>> {
    match p {
        JsonValue::Obj(fields) => match lookup(fields@, "name"@) {
            Some(JsonValue::Str(n)) => Ok(
                ToolsCallParams {
                    name: n,
                    arguments: spec_params_of(lookup(fields@, "arguments"@)),
                },
            ),
            Some(_) => Err("invalid params: name must be a string"@),
            None => Err("invalid params: missing field name"@),
        },
        _ => Err("invalid params: params must be a JSON object"@),
    }
}

/// Reads a parsed JSON value as a JSON-RPC request, exactly as
/// `spec_request_of` says.
pub fn request_of_json(v: JsonValue) -> (r: Result<JsonRpcRequest, String>)
    ensures
        match (r, spec_request_of(v)) {
            (Ok(req), Ok(sreq)) => req == sreq,
            (Err(e), Err(se)) => e@ == se,
            _ => false,
        },
{
    let mut fields = match v {
        JsonValue::Obj(f) => f,
        _ => {
            return Err(String::from_str("invalid request: a request must be a JSON object"));
        },
    };
    let ghost orig = fields@;
    let mut jsonrpc_f: Option<JsonValue> = None;
    let mut id_f: Option<JsonValue> = None;
    let mut method_f: Option<JsonValue> = None;
    let mut params_f: Option<JsonValue> = None;
    while fields.len() > 0
        invariant
            opt_or(jsonrpc_f, lookup(fields@, "jsonrpc"@)) == lookup(orig, "jsonrpc"@),
            opt_or(id_f, lookup(fields@, "id"@)) == lookup(orig, "id"@),
            opt_or(method_f, lookup(fields@, "method"@)) == lookup(orig, "method"@),
            opt_or(params_f, lookup(fields@, "params"@)) == lookup(orig, "params"@),
        decreases fields.len(),
    {
        proof {
            reveal_strlit("jsonrpc");
            reveal_strlit("id");
            reveal_strlit("method");
            reveal_strlit("params");
            assert("jsonrpc"@.len() == 7);
            assert("id"@.len() == 2);
            assert("method"@.len() == 6);
            assert("params"@.len() == 6);
            assert("method"@[0] == 'm');
            assert("params"@[0] == 'p');
            assert("jsonrpc"@ != "id"@);
            assert("jsonrpc"@ != "method"@);
            assert("jsonrpc"@ != "params"@);
            assert("id"@ != "method"@);
            assert("id"@ != "params"@);
            assert("method"@ != "params"@);
        }
        let kv = fields.pop().unwrap();
        let (k, val) = kv;
        if jsonrpc_f.is_none() && str_eq(k.as_str(), "jsonrpc") {
            jsonrpc_f = Some(val);
        } else if id_f.is_none() && str_eq(k.as_str(), "id") {
            id_f = Some(val);
        } else if method_f.is_none() && str_eq(k.as_str(), "method") {
            method_f = Some(val);
        } else if params_f.is_none() && str_eq(k.as_str(), "params") {
            params_f = Some(val);
        }
    }
    let jsonrpc = match jsonrpc_f {
        Some(JsonValue::Str(s)) => s,
        Some(_) => {
            return Err(String::from_str("invalid request: jsonrpc must be a string"));
        },
        None => {
            return Err(String::from_str("invalid request: missing field jsonrpc"));
        },
    };
    let method = match method_f {
        Some(JsonValue::Str(s)) => s,
        Some(_) => {
            return Err(String::from_str("invalid request: method must be a string"));
        },
        None => {
            return Err(String::from_str("invalid request: missing field method"));
        },
    };
    let id = match id_f {
        None => RequestId::Null,
        Some(JsonValue::Null) => RequestId::Null,
        Some(JsonValue::Num(s)) => RequestId::Num(s),
        Some(JsonValue::Str(s)) => RequestId::Str(s),
        Some(_) => {
            return Err(
                String::from_str("invalid request: id must be a string, a number, or null"),
            );
        },
    };
    let params = match params_f {
        None => None,
        Some(JsonValue::Null) => None,
        Some(x) => Some(x),
    };
    Ok(JsonRpcRequest { jsonrpc, id, method, params })
}

/// Reads a `params` value as `tools/call` parameters, exactly as
/// `spec_call_params_of` says.
pub fn call_params_of_json(p: JsonValue) -> (r: Result<ToolsCallParams, String>)
    ensures
        match (r, spec_call_params_of(p)) {
            (Ok(cp), Ok(scp)) => cp == scp,
            (Err(e), Err(se)) => e@ == se,
            _ => false,
        },
{
    let mut fields = match p {
        JsonValue::Obj(f) => f,
        _ => {
            return Err(String::from_str("invalid params: params must be a JSON object"));
        },
    };
    let ghost orig = fields@;
    let mut name_f: Option<JsonValue> = None;
    let mut arguments_f: Option<JsonValue> = None;
    while fields.len() > 0
        invariant
            opt_or(name_f, lookup(fields@, "name"@)) == lookup(orig, "name"@),
            opt_or(arguments_f, lookup(fields@, "arguments"@)) == lookup(orig, "arguments"@),
        decreases fields.len(),
    {
        proof {
            reveal_strlit("name");
            reveal_strlit("arguments");
            assert("name"@.len() == 4);
            assert("arguments"@.len() == 9);
            assert("name"@ != "arguments"@);
        }
        let kv = fields.pop().unwrap();
        let (k, val) = kv;
        if name_f.is_none() && str_eq(k.as_str(), "name") {
            name_f = Some(val);
        } else if arguments_f.is_none() && str_eq(k.as_str(), "arguments") {
            arguments_f = Some(val);
        }
    }
    let name = match name_f {
        Some(JsonValue::Str(s)) => s,
        Some(_) => {
            return Err(String::from_str("invalid params: name must be a string"));
        },
        None => {
            return Err(String::from_str("invalid params: missing field name"));
        },
    };
    let arguments = match arguments_f {
        None => None,
        Some(JsonValue::Null) => None,
        Some(x) => Some(x),
    };
    Ok(ToolsCallParams { name, arguments })
}

} // verus!
