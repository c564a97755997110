use aether::client::{handle_call_reply, handle_initialize_reply, handle_tools_reply, McpClient};
use aether::errors::McpError;
use aether::security::SecurityConfig;
use aether::text::{i64_to_string, u64_to_string};
use aether::wire::{decode_request, encode_request, u64_to_dec_bytes, JsonRpcRequest};

fn open_policy() -> SecurityConfig {
    SecurityConfig::new("1.0".to_string(), "allow".to_string())
}

#[test]
fn initialize_line_is_framed_exactly() {
    let mut client = McpClient::new(open_policy());
    let line = client.prepare_initialize();
    let expected = "{\"jsonrpc\":\"2.0\",\"method\":\"initialize\",\"params\":{\"capabilities\":{\"experimental\":null},\"clientInfo\":{\"name\":\"AETHER\",\"version\":\"0.1.0\"},\"protocolVersion\":\"2024-11-05\"},\"id\":1}";
    assert_eq!(line, expected.as_bytes().to_vec());
}

#[test]
fn list_tools_line_omits_params_and_counts_up() {
    let mut client = McpClient::new(open_policy());
    let _ = client.prepare_initialize();
    let line = client.prepare_list_tools();
    assert_eq!(
        line,
        "{\"jsonrpc\":\"2.0\",\"method\":\"tools/list\",\"id\":2}".as_bytes().to_vec()
    );
}

#[test]
fn call_line_carries_arguments_and_name() {
    let mut client = McpClient::new(open_policy());
    let line = client.prepare_call_tool("calculate_sum", "{\"a\":2,\"b\":2}").unwrap();
    let expected = "{\"jsonrpc\":\"2.0\",\"method\":\"tools/call\",\"params\":{\"arguments\":{\"a\":2,\"b\":2},\"name\":\"calculate_sum\"},\"id\":1}";
    assert_eq!(line, expected.as_bytes().to_vec());
}

#[test]
fn call_name_is_escaped() {
    let mut client = McpClient::new(open_policy());
    let line = client.prepare_call_tool("odd\"name", "{}").unwrap();
    let text = String::from_utf8(line).unwrap();
    assert!(text.contains("\"name\":\"odd\\\"name\""));
}

#[test]
fn control_bytes_in_a_name_get_the_long_escape() {
    let mut client = McpClient::new(open_policy());
    let line = client.prepare_call_tool("tab\tname", "{}").unwrap();
    let text = String::from_utf8(line).unwrap();
    assert!(text.contains("\"name\":\"tab\\u0009name\""));
}

#[test]
fn framed_call_line_holds_no_newline_byte() {
    let mut client = McpClient::new(open_policy());
    let args = aether::agent::tool_arguments("{\n  \"a\": 2,\n  \"b\": 2\n}");
    let line = client.prepare_call_tool("calculate_sum", &args).unwrap();
    assert!(!line.contains(&b'\n'));
    assert!(!line.contains(&b'\r'));
}

#[test]
fn denied_call_frames_nothing_and_keeps_the_id() {
    let mut client = McpClient::new(SecurityConfig::new(
        "1.0".to_string(),
        "deny".to_string(),
    ));
    let r = client.prepare_call_tool("calculate_sum", "{}");
    match r {
        Err(McpError::PermissionDenied { tool }) => assert_eq!(tool, "calculate_sum"),
        _ => panic!("expected a permission denial"),
    }
    assert_eq!(client.request_id_counter, 0);
    // The next permitted operation still uses the first id.
    let line = client.prepare_list_tools();
    assert!(String::from_utf8(line).unwrap().ends_with("\"id\":1}"));
}

#[test]
fn request_round_trip() {
    let req = JsonRpcRequest::new(
        "tools/call".as_bytes().to_vec(),
        Some("{\"a\":1,\"id\":7}".as_bytes().to_vec()),
        42,
    );
    let line = encode_request(&req);
    let back = decode_request(&line).unwrap();
    assert_eq!(back.method, "tools/call".as_bytes().to_vec());
    assert_eq!(back.params, Some("{\"a\":1,\"id\":7}".as_bytes().to_vec()));
    assert_eq!(back.id, 42);
}

#[test]
fn request_round_trip_without_params() {
    let req = JsonRpcRequest::new("tools/list".as_bytes().to_vec(), None, 9);
    let back = decode_request(&encode_request(&req)).unwrap();
    assert_eq!(back.method, "tools/list".as_bytes().to_vec());
    assert_eq!(back.params, None);
    assert_eq!(back.id, 9);
}

#[test]
fn malformed_lines_do_not_decode() {
    assert!(decode_request(b"nonsense").is_none());
    assert!(decode_request(b"{\"jsonrpc\":\"2.0\",\"method\":\"x\"}").is_none());
}

#[test]
fn handshake_reply_is_decoded() {
    let line = "{\"jsonrpc\":\"2.0\",\"id\":1,\"result\":{\"protocolVersion\":\"2024-11-05\",\"capabilities\":{},\"serverInfo\":{\"name\":\"MockTool\",\"version\":\"1.0\"}}}";
    let init = handle_initialize_reply(line).unwrap();
    assert_eq!(init.server_info.name, "MockTool");
    assert_eq!(init.server_info.version, "1.0");
    assert_eq!(init.protocol_version, "2024-11-05");
}

#[test]
fn handshake_reply_with_error_fails_as_protocol_error() {
    let line = "{\"jsonrpc\":\"2.0\",\"id\":1,\"error\":{\"code\":-32601,\"message\":\"Method not found\"}}";
    match handle_initialize_reply(line) {
        Err(e) => assert_eq!(e.text(), "MCP Init Error: Method not found (Code: -32601)"),
        Ok(_) => panic!("an error reply must never yield a result"),
    }
}

#[test]
fn reply_with_neither_result_nor_error_is_a_violation() {
    match handle_call_reply("{\"jsonrpc\":\"2.0\",\"id\":3}") {
        Err(McpError::EmptyResult) => {},
        _ => panic!("expected the empty-result failure"),
    }
}

#[test]
fn tool_listing_reply_is_decoded() {
    let line = "{\"jsonrpc\":\"2.0\",\"id\":2,\"result\":{\"tools\":[{\"name\":\"calculate_sum\",\"description\":\"Adds two numbers together\",\"inputSchema\":{\"type\":\"object\"}}]}}";
    let tools = handle_tools_reply(line).unwrap();
    assert_eq!(tools.len(), 1);
    assert_eq!(tools[0].name, "calculate_sum");
    assert_eq!(
        tools[0].description,
        Some("Adds two numbers together".to_string())
    );
    assert!(tools[0].input_schema.contains("object"));
}

#[test]
fn call_reply_with_error_reports_the_callee_failure() {
    let line = "{\"jsonrpc\":\"2.0\",\"id\":4,\"error\":{\"code\":-32601,\"message\":\"Method not found\"}}";
    match handle_call_reply(line) {
        Err(McpError::ToolExecutionError { message }) => assert_eq!(message, "Method not found"),
        _ => panic!("expected the callee-reported failure"),
    }
}

#[test]
fn call_reply_result_is_returned_as_text() {
    let line = "{\"jsonrpc\":\"2.0\",\"id\":1,\"result\":{\"content\":[{\"type\":\"text\",\"text\":\"The sum is 4\"}]}}";
    let text = handle_call_reply(line).unwrap();
    assert!(text.contains("The sum is 4"));
}

#[test]
fn unparsable_reply_is_a_decode_failure() {
    match handle_call_reply("not json at all") {
        Err(McpError::DecodeError(_)) => {},
        _ => panic!("expected a decode failure"),
    }
}

#[test]
fn decimal_renderings() {
    assert_eq!(u64_to_string(0), "0");
    assert_eq!(u64_to_string(42), "42");
    assert_eq!(u64_to_string(18446744073709551615), "18446744073709551615");
    assert_eq!(i64_to_string(-32601), "-32601");
    assert_eq!(i64_to_string(7), "7");
    assert_eq!(i64_to_string(i64::MIN), "-9223372036854775808");
    assert_eq!(u64_to_dec_bytes(905), b"905".to_vec());
}
