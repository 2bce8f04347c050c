//! Tests of errors, chat messages and the agent's state.

use neoco::agent::state::{AgentState, ToolCall};
use neoco::errors::{ChatError, EventError, IoError, NeocoError, RenderError};
use neoco::events::message::ChatMessage;
use neoco::events::{TokenUsage, ToolOutput};

#[test]
fn test_event_error_display() {
    let err = EventError::EventBusSend("test error".to_string());
    assert!(err.message().contains("test error"));
}

#[test]
fn test_io_error_display() {
    let err = IoError::ReadInput("test error".to_string());
    assert!(err.message().contains("test error"));
}

#[test]
fn test_agent_state_new() {
    let state = AgentState::new();
    assert!(state.chat_history.is_empty());
    assert!(state.current_tool_call.is_none());
    assert!(state.token_usage.is_none());
    assert!(!state.is_loading);
}

#[test]
fn test_push_message() {
    let mut state = AgentState::new();
    state.push_message(ChatMessage::User("hello".to_string()));
    assert_eq!(state.chat_history.len(), 1);
}

#[test]
fn test_update_tool_call() {
    let mut state = AgentState::new();
    let tool_call = ToolCall { command: "ls".to_string(), arguments: r#"{"command":"ls -la"}"#.to_string() };
    state.update_tool_call(tool_call);
    assert!(state.current_tool_call.is_some());
    assert_eq!(state.current_tool_call.as_ref().unwrap().command, "ls");
}

#[test]
fn test_clear_tool_call() {
    let mut state = AgentState::new();
    let tool_call = ToolCall { command: "ls".to_string(), arguments: "{}".to_string() };
    state.update_tool_call(tool_call);
    state.clear_tool_call();
    assert!(state.current_tool_call.is_none());
}

#[test]
fn state_test_parse_tool_call_from_json() {
    let args = r#"{"command": "ls -la"}"#;
    let msg = ChatMessage::parse_tool_call(args);
    match msg {
        ChatMessage::ToolCall { command } => assert_eq!(command, "ls -la"),
        _ => panic!("Expected ToolCall"),
    }
}

#[test]
fn state_test_parse_tool_call_from_plain_text() {
    let args = "plain text command";
    let msg = ChatMessage::parse_tool_call(args);
    match msg {
        ChatMessage::ToolCall { command } => assert_eq!(command, "plain text command"),
        _ => panic!("Expected ToolCall"),
    }
}

#[test]
fn state_test_parse_tool_result_with_structured_data() {
    let content = "raw output";
    let structured = ToolOutput::from_json(r#"{"stdout": "hello", "stderr": "", "exit_code": 0}"#);
    let msg = ChatMessage::parse_tool_result(content, &Some(structured));
    match msg {
        ChatMessage::ToolResult { stdout, stderr, exit_code } => {
            assert_eq!(stdout, "hello");
            assert!(stderr.is_empty());
            assert_eq!(exit_code, 0);
        },
        _ => panic!("Expected ToolResult"),
    }
}

#[test]
fn state_test_parse_tool_result_without_structured() {
    let content = "raw output";
    let msg = ChatMessage::parse_tool_result(content, &None);
    match msg {
        ChatMessage::Assistant(text) => assert_eq!(text, "raw output"),
        _ => panic!("Expected Assistant message"),
    }
}

#[test]
fn message_test_parse_tool_call_from_json() {
    let args = r#"{"command": "ls -la"}"#;
    let msg = ChatMessage::parse_tool_call(args);
    assert!(matches!(msg, ChatMessage::ToolCall { command } if command == "ls -la"));
}

#[test]
fn message_test_parse_tool_call_from_plain_text() {
    let args = "plain text command";
    let msg = ChatMessage::parse_tool_call(args);
    assert!(matches!(msg, ChatMessage::ToolCall { command } if command == "plain text command"));
}

#[test]
fn message_test_parse_tool_result_with_structured_data() {
    let content = "raw output";
    let structured = ToolOutput::from_json(r#"{"stdout": "hello", "stderr": "", "exit_code": 0}"#);
    let msg = ChatMessage::parse_tool_result(content, &Some(structured));
    assert!(matches!(msg, ChatMessage::ToolResult { stdout, .. } if stdout == "hello"));
}

#[test]
fn message_test_parse_tool_result_without_structured() {
    let content = "raw output";
    let msg = ChatMessage::parse_tool_result(content, &None);
    assert!(matches!(msg, ChatMessage::Assistant(text) if text == "raw output"));
}

// Further cases.

#[test]
fn tool_call_json_without_command_is_kept_whole() {
    let args = r#"{"cmd": "ls"}"#;
    assert!(matches!(ChatMessage::parse_tool_call(args), ChatMessage::ToolCall { command } if command == args));
    let args = r#"{"command": 5}"#;
    assert!(matches!(ChatMessage::parse_tool_call(args), ChatMessage::ToolCall { command } if command == args));
}

#[test]
fn partial_structure_falls_back_to_content() {
    let structured = ToolOutput::from_json(r#"{"stdout": "hello", "exit_code": 0}"#);
    assert!(structured.stderr.is_none());
    let msg = ChatMessage::parse_tool_result("raw", &Some(structured));
    assert!(matches!(msg, ChatMessage::Assistant(text) if text == "raw"));
    let not_int = ToolOutput::from_json(r#"{"stdout": "", "stderr": "", "exit_code": 1.5}"#);
    assert!(not_int.exit_code.is_none());
}

#[test]
fn agent_state_updates() {
    let mut state = AgentState::default();
    state.set_loading(true);
    assert!(state.is_loading);
    state.update_usage(TokenUsage { input_tokens: 1, output_tokens: 2, total_tokens: 3 });
    assert_eq!(state.token_usage.unwrap().total_tokens, 3);
}

#[test]
fn error_messages() {
    assert_eq!(EventError::EventBusRecv("x".to_string()).message(), "Event bus receive error: x");
    assert_eq!(IoError::Terminal("t".to_string()).message(), "Terminal error: t");
    assert_eq!(RenderError::RenderFailed("r".to_string()).message(), "Render failed: r");
    assert_eq!(ChatError::NoMessage.message(), "No message provided. Use -M/--message to send a message.");
    assert_eq!(
        ChatError::Render(RenderError::Terminal("t".to_string())).message(),
        "Render error: Terminal error: t"
    );
    assert_eq!(
        NeocoError::Io(IoError::WriteOutput("w".to_string())).message(),
        "I/O error: Failed to write output: w"
    );
    let io = std::io::Error::new(std::io::ErrorKind::Other, "disk");
    assert_eq!(EventError::from(io).message(), "Terminal I/O error: disk");
}

#[test]
fn json_and_render_errors_show_their_text() {
    let json = serde_json::from_str::<serde_json::Value>("{").unwrap_err();
    let m = ChatError::JsonSerialization(json).message();
    assert!(m.starts_with("JSON serialization failed: "));
    assert!(m.len() > "JSON serialization failed: ".len());
    let io = std::io::Error::new(std::io::ErrorKind::Other, "tty");
    assert_eq!(RenderError::Io(io).message(), "IO error: tty");
}
