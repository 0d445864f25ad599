use ip_info_server::mcp::{JsonValue, RequestId};
use ip_info_server::server::{Action, McpServer};
use ip_info_server::wire::response_text;
use ip_info_server::IpInfo;

fn reply_text(line: &str) -> String {
    let server = McpServer::new();
    match server.handle_line(line) {
        Action::Reply(r) => response_text(&r),
        _ => panic!("expected a reply for line: {}", line),
    }
}

#[test]
fn tools_list_has_exactly_one_tool() {
    let text = reply_text("{\"jsonrpc\":\"2.0\",\"id\":1,\"method\":\"tools/list\"}");
    assert_eq!(
        text,
        "{\"jsonrpc\":\"2.0\",\"id\":1,\"result\":{\"tools\":[{\"name\":\"get_ip_info\",\"description\":\"获取当前机器的公网IP信息，包括IP地址、地理位置、ISP等\",\"inputSchema\":{\"type\":\"object\",\"properties\":{},\"required\":[]}}]}}"
    );
    let v: serde_json::Value = serde_json::from_str(&text).unwrap();
    let tools = v["result"]["tools"].as_array().unwrap();
    assert_eq!(tools.len(), 1);
    assert_eq!(tools[0]["name"], serde_json::Value::String("get_ip_info".to_string()));
}

#[test]
fn initialize_reports_fixed_identity() {
    let text = reply_text(
        "{\"jsonrpc\":\"2.0\",\"id\":5,\"method\":\"initialize\",\"params\":{\"protocolVersion\":\"2024-11-05\",\"capabilities\":{},\"clientInfo\":{\"name\":\"c\",\"version\":\"1\"}}}",
    );
    assert_eq!(
        text,
        "{\"jsonrpc\":\"2.0\",\"id\":5,\"result\":{\"protocolVersion\":\"2024-11-05\",\"capabilities\":{\"tools\":{}},\"serverInfo\":{\"name\":\"ip-info-server\",\"version\":\"0.1.0\"}}}"
    );
}

#[test]
fn unknown_method_is_method_not_found() {
    let text = reply_text("{\"jsonrpc\":\"2.0\",\"id\":2,\"method\":\"unknown/method\"}");
    assert_eq!(
        text,
        "{\"jsonrpc\":\"2.0\",\"id\":2,\"error\":{\"code\":-32601,\"message\":\"Method not found\"}}"
    );
    let v: serde_json::Value = serde_json::from_str(&text).unwrap();
    assert_eq!(v["error"]["code"], serde_json::Value::from(-32601));
}

#[test]
fn unknown_tool_is_invalid_params() {
    let text = reply_text(
        "{\"jsonrpc\":\"2.0\",\"id\":3,\"method\":\"tools/call\",\"params\":{\"name\":\"bogus\"}}",
    );
    assert_eq!(
        text,
        "{\"jsonrpc\":\"2.0\",\"id\":3,\"error\":{\"code\":-32602,\"message\":\"Unknown tool: bogus\"}}"
    );
    let v: serde_json::Value = serde_json::from_str(&text).unwrap();
    assert_eq!(v["error"]["code"], serde_json::Value::from(-32602));
}

#[test]
fn missing_params_is_reported() {
    let text = reply_text("{\"jsonrpc\":\"2.0\",\"id\":4,\"method\":\"tools/call\"}");
    assert_eq!(
        text,
        "{\"jsonrpc\":\"2.0\",\"id\":4,\"error\":{\"code\":-32602,\"message\":\"Missing params\"}}"
    );
}

#[test]
fn non_object_params_are_invalid() {
    let text = reply_text("{\"jsonrpc\":\"2.0\",\"id\":6,\"method\":\"tools/call\",\"params\":[1]}");
    assert_eq!(
        text,
        "{\"jsonrpc\":\"2.0\",\"id\":6,\"error\":{\"code\":-32602,\"message\":\"Invalid params\",\"data\":{\"details\":\"invalid params: params must be a JSON object\"}}}"
    );
}

#[test]
fn params_without_name_are_invalid() {
    let text = reply_text(
        "{\"jsonrpc\":\"2.0\",\"id\":6,\"method\":\"tools/call\",\"params\":{\"arguments\":{}}}",
    );
    assert_eq!(
        text,
        "{\"jsonrpc\":\"2.0\",\"id\":6,\"error\":{\"code\":-32602,\"message\":\"Invalid params\",\"data\":{\"details\":\"invalid params: missing field name\"}}}"
    );
}

#[test]
fn malformed_json_is_parse_error_with_null_id() {
    let text = reply_text("not json");
    let v: serde_json::Value = serde_json::from_str(&text).unwrap();
    assert!(v["id"].is_null());
    assert_eq!(v["error"]["code"], serde_json::Value::from(-32700));
    assert_eq!(v["error"]["message"], serde_json::Value::String("Parse error".to_string()));
    assert!(v["error"]["data"]["details"].is_string());
    assert!(text.starts_with("{\"jsonrpc\":\"2.0\",\"id\":null,\"error\":{\"code\":-32700,\"message\":\"Parse error\",\"data\":{\"details\":"));
}

#[test]
fn response_id_echoes_request_id() {
    let number = reply_text("{\"jsonrpc\":\"2.0\",\"id\":1,\"method\":\"x\"}");
    assert!(number.starts_with("{\"jsonrpc\":\"2.0\",\"id\":1,"));
    let string = reply_text("{\"jsonrpc\":\"2.0\",\"id\":\"abc\",\"method\":\"x\"}");
    assert!(string.starts_with("{\"jsonrpc\":\"2.0\",\"id\":\"abc\","));
    let null = reply_text("{\"jsonrpc\":\"2.0\",\"id\":null,\"method\":\"x\"}");
    assert!(null.starts_with("{\"jsonrpc\":\"2.0\",\"id\":null,"));
    let absent = reply_text("{\"jsonrpc\":\"2.0\",\"method\":\"x\"}");
    assert!(absent.starts_with("{\"jsonrpc\":\"2.0\",\"id\":null,"));
    let fraction = reply_text("{\"jsonrpc\":\"2.0\",\"id\":2.5,\"method\":\"x\"}");
    assert!(fraction.starts_with("{\"jsonrpc\":\"2.0\",\"id\":2.5,"));
}

#[test]
fn string_id_is_escaped_and_round_trips() {
    let server = McpServer::new();
    let action = server.handle_parsed(Ok(JsonValue::Obj(vec![
        ("jsonrpc".to_string(), JsonValue::Str("2.0".to_string())),
        ("id".to_string(), JsonValue::Str("a\"b\\c\nd\u{1}".to_string())),
        ("method".to_string(), JsonValue::Str("nope".to_string())),
    ])));
    let text = match action {
        Action::Reply(r) => response_text(&r),
        _ => panic!("expected a reply"),
    };
    assert!(text.contains("\\u0001"));
    let v: serde_json::Value = serde_json::from_str(&text).unwrap();
    assert_eq!(v["id"], serde_json::Value::String("a\"b\\c\nd\u{1}".to_string()));
}

#[test]
fn get_ip_info_call_becomes_fetch_with_same_id() {
    let server = McpServer::new();
    let action = server.handle_line(
        "{\"jsonrpc\":\"2.0\",\"id\":7,\"method\":\"tools/call\",\"params\":{\"name\":\"get_ip_info\",\"arguments\":{}}}",
    );
    match action {
        Action::FetchIpInfo { id } => match id {
            RequestId::Num(n) => assert_eq!(n, "7"),
            _ => panic!("expected a numeric id"),
        },
        _ => panic!("expected a fetch action"),
    }
}

#[test]
fn completed_fetch_renders_the_record() {
    let server = McpServer::new();
    let info = IpInfo {
        ip: "1.2.3.4".to_string(),
        city: "SF".to_string(),
        region: "CA".to_string(),
        country: "US".to_string(),
        loc: "37.7,-122.4".to_string(),
        org: "Org".to_string(),
        timezone: "PST".to_string(),
    };
    let r = server.tool_call_response(RequestId::Num("9".to_string()), Ok(info));
    let text = response_text(&r);
    assert_eq!(
        text,
        "{\"jsonrpc\":\"2.0\",\"id\":9,\"result\":{\"content\":[{\"type\":\"text\",\"text\":\"IP Information:\\n  IP Address: 1.2.3.4\\n  City: SF\\n  Region: CA\\n  Country: US\\n  Location: Latitude=37.7, Longitude=-122.4\\n  Organization: Org\\n  Timezone: PST\\n\"}]}}"
    );
}

#[test]
fn failed_fetch_is_flagged_inside_a_success_envelope() {
    let server = McpServer::new();
    let r = server.tool_call_response(RequestId::Num("10".to_string()), Err("boom".to_string()));
    let text = response_text(&r);
    assert_eq!(
        text,
        "{\"jsonrpc\":\"2.0\",\"id\":10,\"result\":{\"content\":[{\"type\":\"text\",\"text\":\"获取IP信息失败: boom\"}],\"isError\":true}}"
    );
    let v: serde_json::Value = serde_json::from_str(&text).unwrap();
    assert_eq!(v["result"]["isError"], serde_json::Value::Bool(true));
}

#[test]
fn ill_shaped_requests_are_parse_errors() {
    let missing_method = reply_text("{\"jsonrpc\":\"2.0\",\"id\":1}");
    assert_eq!(
        missing_method,
        "{\"jsonrpc\":\"2.0\",\"id\":null,\"error\":{\"code\":-32700,\"message\":\"Parse error\",\"data\":{\"details\":\"invalid request: missing field method\"}}}"
    );
    let missing_tag = reply_text("{\"id\":1,\"method\":\"x\"}");
    assert_eq!(
        missing_tag,
        "{\"jsonrpc\":\"2.0\",\"id\":null,\"error\":{\"code\":-32700,\"message\":\"Parse error\",\"data\":{\"details\":\"invalid request: missing field jsonrpc\"}}}"
    );
    let bad_id = reply_text("{\"jsonrpc\":\"2.0\",\"id\":[1],\"method\":\"x\"}");
    assert_eq!(
        bad_id,
        "{\"jsonrpc\":\"2.0\",\"id\":null,\"error\":{\"code\":-32700,\"message\":\"Parse error\",\"data\":{\"details\":\"invalid request: id must be a string, a number, or null\"}}}"
    );
    let not_an_object = reply_text("[1,2]");
    assert_eq!(
        not_an_object,
        "{\"jsonrpc\":\"2.0\",\"id\":null,\"error\":{\"code\":-32700,\"message\":\"Parse error\",\"data\":{\"details\":\"invalid request: a request must be a JSON object\"}}}"
    );
    let bad_name = reply_text(
        "{\"jsonrpc\":\"2.0\",\"id\":8,\"method\":\"tools/call\",\"params\":{\"name\":3}}",
    );
    assert_eq!(
        bad_name,
        "{\"jsonrpc\":\"2.0\",\"id\":8,\"error\":{\"code\":-32602,\"message\":\"Invalid params\",\"data\":{\"details\":\"invalid params: name must be a string\"}}}"
    );
}

#[test]
fn later_duplicate_member_wins() {
    let server = McpServer::new();
    let action = server.handle_parsed(Ok(JsonValue::Obj(vec![
        ("jsonrpc".to_string(), JsonValue::Str("2.0".to_string())),
        ("id".to_string(), JsonValue::Num("1".to_string())),
        ("method".to_string(), JsonValue::Str("tools/call".to_string())),
        (
            "params".to_string(),
            JsonValue::Obj(vec![
                ("name".to_string(), JsonValue::Str("first".to_string())),
                ("name".to_string(), JsonValue::Str("second".to_string())),
            ]),
        ),
    ])));
    let text = match action {
        Action::Reply(r) => response_text(&r),
        _ => panic!("expected a reply"),
    };
    assert!(text.contains("Unknown tool: second"));
}

#[test]
fn blank_lines_produce_no_output() {
    let server = McpServer::new();
    let lines = vec![
        "",
        "   ",
        "{\"jsonrpc\":\"2.0\",\"id\":1,\"method\":\"tools/list\"}",
        "\t",
        "not json",
        " \r\n",
    ];
    let mut outputs: usize = 0;
    let mut non_blank: usize = 0;
    for line in &lines {
        if !line.trim().is_empty() {
            non_blank += 1;
        }
        match server.handle_line(line) {
            Action::Silent => {},
            _ => outputs += 1,
        }
    }
    assert_eq!(outputs, non_blank);
    assert_eq!(outputs, 2);
}
