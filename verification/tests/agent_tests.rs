use aether::agent::{final_answer_tools, tool_arguments, tool_outcome_text, Agent, TurnAction};
use aether::client::{handle_call_reply, McpClient};
use aether::errors::McpError;
use aether::messages::{FunctionCall, Message, Role, ToolCall, UiMessage};
use aether::security::SecurityConfig;
use aether::text::{
    critical_failure_text, cycle_error_text, exec_text, result_text, startup_text, thinking_text,
    tools_discovered_text, tools_requested_text,
};

fn assistant_reply(content: Option<&str>, calls: Option<Vec<ToolCall>>) -> Message {
    Message {
        role: Role::Assistant,
        content: content.map(|c| c.to_string()),
        tool_calls: calls,
        tool_call_id: None,
    }
}

fn call(id: &str, name: &str, args: &str) -> ToolCall {
    ToolCall {
        id: id.to_string(),
        function: FunctionCall { name: name.to_string(), arguments: args.to_string() },
    }
}

#[test]
fn fresh_transcript_holds_the_system_prompt() {
    let agent = Agent::new();
    assert_eq!(agent.history.len(), 1);
    assert_eq!(agent.history[0].role, Role::System);
    assert_eq!(
        agent.history[0].content,
        Some("You are AETHER. Be concise. Use tools wisely.".to_string())
    );
}

#[test]
fn direct_reply_turn_appends_exactly_one_entry() {
    let mut agent = Agent::new();
    agent.note_user("hello".to_string());
    let before = agent.history.len();
    let act = agent.apply_completion(assistant_reply(Some("hi there"), None));
    assert_eq!(agent.history.len(), before + 1);
    assert_eq!(agent.history[before].role, Role::Assistant);
    match act {
        TurnAction::Respond(text) => assert_eq!(text, "hi there"),
        TurnAction::RunTools(_) => panic!("a reply without tool calls answers directly"),
    }
}

#[test]
fn reply_without_content_degrades_to_a_marker() {
    let mut agent = Agent::new();
    match agent.apply_completion(assistant_reply(None, None)) {
        TurnAction::Respond(text) => assert_eq!(text, "No content"),
        TurnAction::RunTools(_) => panic!("a reply without tool calls answers directly"),
    }
}

#[test]
fn tool_turn_appends_one_entry_per_call_in_order() {
    let mut agent = Agent::new();
    agent.note_user("do two things".to_string());
    let calls = vec![call("c1", "first_tool", "{}"), call("c2", "second_tool", "{}")];
    let act = agent.apply_completion(assistant_reply(None, Some(calls)));
    let got = match act {
        TurnAction::RunTools(cs) => cs,
        TurnAction::Respond(_) => panic!("a reply with tool calls runs them"),
    };
    assert_eq!(got.len(), 2);
    let before = agent.history.len();
    for c in &got {
        agent.record_tool_result(c.id.clone(), format!("done {}", c.function.name));
    }
    let answer = agent.apply_final(assistant_reply(Some("all done"), None));
    assert_eq!(answer, "all done");
    assert_eq!(agent.history.len(), before + 3);
    assert_eq!(agent.history[before].role, Role::Tool);
    assert_eq!(agent.history[before].tool_call_id, Some("c1".to_string()));
    assert_eq!(agent.history[before].content, Some("done first_tool".to_string()));
    assert_eq!(agent.history[before + 1].tool_call_id, Some("c2".to_string()));
    assert_eq!(agent.history[before + 2].role, Role::Assistant);
    // The reply entry keeps its tool calls, and the final completion
    // of a tool turn is issued with no tools at all.
    let reply_entry = &agent.history[before - 1];
    assert_eq!(reply_entry.tool_calls.as_ref().map(|cs| cs.len()), Some(2));
    assert!(final_answer_tools().is_empty());
}

#[test]
fn empty_tool_call_list_still_takes_the_tool_branch() {
    let mut agent = Agent::new();
    match agent.apply_completion(assistant_reply(Some("x"), Some(Vec::new()))) {
        TurnAction::RunTools(cs) => assert!(cs.is_empty()),
        TurnAction::Respond(_) => panic!("a present tool-call list selects the tool branch"),
    }
}

#[test]
fn malformed_arguments_degrade_to_the_empty_document() {
    assert_eq!(tool_arguments("{\"a\": 2"), "{}");
    assert_eq!(tool_arguments("not json"), "{}");
    assert_eq!(tool_arguments("{\"a\":2,\"b\":2}"), "{\"a\":2,\"b\":2}");
    assert_eq!(tool_arguments("3"), "3");
}

#[test]
fn arguments_are_rendered_on_a_single_line() {
    // Valid JSON may span lines; what is sent must not.
    let pretty = "{\n  \"b\": 1,\n  \"a\": 2\n}";
    let args = tool_arguments(pretty);
    assert_eq!(args, "{\"a\":2,\"b\":1}");
    assert!(!args.contains('\n'));
}

#[test]
fn allowed_scenario_reaches_the_wire_and_records_the_sum() {
    // Policy: deny everything, allow calculate_sum alone.
    let mut cfg = SecurityConfig::new("1.0".to_string(), "deny".to_string());
    cfg.add_rule("calculate_sum".to_string(), "allow".to_string());
    let mut client = McpClient::new(cfg);

    let mut agent = Agent::new();
    agent.note_user("what is 2+2".to_string());
    let reply = assistant_reply(None, Some(vec![call("call_1", "calculate_sum", "{\"a\":2,\"b\":2}")]));
    let calls = match agent.apply_completion(reply) {
        TurnAction::RunTools(cs) => cs,
        TurnAction::Respond(_) => panic!("the reply requested a tool"),
    };
    let args = tool_arguments(&calls[0].function.arguments);
    let line = client.prepare_call_tool(&calls[0].function.name, &args).unwrap();
    let sent = String::from_utf8(line).unwrap();
    assert!(sent.contains("{\"arguments\":{\"a\":2,\"b\":2},\"name\":\"calculate_sum\"}"));

    let reply_line = "{\"jsonrpc\":\"2.0\",\"id\":1,\"result\":{\"content\":[{\"type\":\"text\",\"text\":\"The sum is 4\"}]}}";
    let outcome = handle_call_reply(reply_line);
    let text = tool_outcome_text(outcome);
    assert!(text.contains("The sum is 4"));
    agent.record_tool_result(calls[0].id.clone(), text);
    let last = agent.history.last().unwrap();
    assert_eq!(last.role, Role::Tool);
    assert_eq!(last.tool_call_id, Some("call_1".to_string()));
    assert!(last.content.as_ref().unwrap().contains("The sum is 4"));

    let answer = agent.apply_final(assistant_reply(Some("2+2 is 4."), None));
    assert!(answer.contains("4"));
}

#[test]
fn denied_scenario_never_reaches_the_wire() {
    let mut cfg = SecurityConfig::new("1.0".to_string(), "deny".to_string());
    cfg.add_rule("calculate_sum".to_string(), "deny".to_string());
    let mut client = McpClient::new(cfg);

    let mut agent = Agent::new();
    agent.note_user("what is 2+2".to_string());
    let reply = assistant_reply(None, Some(vec![call("call_1", "calculate_sum", "{\"a\":2,\"b\":2}")]));
    let calls = match agent.apply_completion(reply) {
        TurnAction::RunTools(cs) => cs,
        TurnAction::Respond(_) => panic!("the reply requested a tool"),
    };
    let outcome = client.prepare_call_tool(&calls[0].function.name, "{\"a\":2,\"b\":2}");
    assert!(outcome.is_err());
    // Nothing was framed, so nothing can be written.
    assert_eq!(client.request_id_counter, 0);

    let text = tool_outcome_text(outcome.map(|_| String::new()));
    assert!(text.starts_with("Error:"));
    assert!(text.contains("SECURITY ALERT: Tool 'calculate_sum' is blocked by permissions.json"));
    agent.record_tool_result(calls[0].id.clone(), text);
    let last = agent.history.last().unwrap();
    assert!(last.content.as_ref().unwrap().starts_with("Error:"));
}

#[test]
fn closed_transport_surfaces_and_the_loop_goes_on() {
    let mut agent = Agent::new();
    agent.note_user("first".to_string());
    let outcome: Result<String, McpError> = Err(McpError::TransportClosed);
    let text = tool_outcome_text(outcome);
    assert_eq!(text, "Error: Process closed the connection (EOF)");
    agent.record_tool_result("call_9".to_string(), text);
    // The next user input is still accepted afterwards.
    let before = agent.history.len();
    agent.note_user("second".to_string());
    assert_eq!(agent.history.len(), before + 1);
    assert_eq!(agent.history.last().unwrap().role, Role::User);
}

#[test]
fn fixed_log_texts() {
    assert_eq!(startup_text(), "Agent System Online.");
    assert_eq!(thinking_text(), "Thinking...");
    assert_eq!(tools_discovered_text(1), "Tools Discovered: 1");
    assert_eq!(tools_requested_text(2), "Tools Requested: 2");
    assert_eq!(
        exec_text("calculate_sum", "{\"a\":2,\"b\":2}"),
        "EXEC: calculate_sum({\"a\":2,\"b\":2})"
    );
    assert_eq!(result_text("The sum is 4"), "RESULT: The sum is 4");
    assert_eq!(cycle_error_text("boom"), "Cycle Error: boom");
    assert_eq!(critical_failure_text("gone"), "Critical Tool Failure: gone");
}

#[test]
fn error_texts() {
    assert_eq!(
        McpError::ToolExecutionError { message: "Method not found".to_string() }.text(),
        "Tool Execution Error: Method not found"
    );
    assert_eq!(McpError::EmptyResult.text(), "Tool returned no result");
    assert_eq!(
        McpError::TransportIo("broken pipe".to_string()).text(),
        "Transport failure: broken pipe"
    );
    assert_eq!(
        McpError::CompletionServiceError("rate limited".to_string()).text(),
        "API Error: rate limited"
    );
    assert_eq!(
        McpError::DecodeError("Invalid tools list format".to_string()).text(),
        "Invalid tools list format"
    );
}

#[test]
fn display_events_carry_their_text() {
    let e = UiMessage::Ai("2+2 is 4.".to_string());
    match e {
        UiMessage::Ai(t) => assert_eq!(t, "2+2 is 4."),
        _ => panic!("the event was built as an answer"),
    }
}
