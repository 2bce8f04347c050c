//! Tests of the display of command results and chat events.

use neoco::events::{ChatEvent, ToolOutput};
use neoco::render::{display_event, OutputHandler, TextColor};
use neoco::renderer::cli::CliRenderer;

fn numbered(prefix: &str, n: usize) -> String {
    (0..n).map(|i| format!("{prefix}{i}")).collect::<Vec<_>>().join("\n")
}

#[test]
fn render_test_format_command_result_empty() {
    let result = OutputHandler::format_command_result("", "", 0);
    assert_eq!(result, "");
}

#[test]
fn render_test_format_command_result_only_stdout() {
    let stdout = "line1\nline2\nline3";
    let result = OutputHandler::format_command_result(stdout, "", 0);
    assert!(result.contains("输出:"));
    assert!(result.contains("line1"));
    assert!(result.contains("line2"));
    assert!(result.contains("line3"));
    assert!(!result.contains("错误:"));
}

#[test]
fn render_test_format_command_result_truncates_long_stdout() {
    let long_output = numbered("line", 10);
    let result = OutputHandler::format_command_result(&long_output, "", 0);
    assert!(result.contains("line0"));
    assert!(result.contains("line4"));
    assert!(result.contains("更多输出已省略"));
}

#[test]
fn render_test_format_command_result_truncates_long_stderr() {
    let long_error = numbered("error", 10);
    let result = OutputHandler::format_command_result("", &long_error, 0);
    assert!(result.contains("error0"));
    assert!(result.contains("error4"));
    assert!(result.contains("更多错误已省略"));
}

#[test]
fn render_test_format_command_result_max_5_lines_shown() {
    let long_output = numbered("line", 100);
    let result = OutputHandler::format_command_result(&long_output, "", 0);
    let lines: Vec<&str> = result.lines().filter(|l| l.starts_with("  line")).collect();
    assert_eq!(lines.len(), 5);
}

#[test]
fn render_test_format_command_result_both_streams() {
    let result = OutputHandler::format_command_result("output", "error", 0);
    assert!(result.contains("输出:"));
    assert!(result.contains("错误:"));
    assert!(result.contains("output"));
    assert!(result.contains("error"));
}

#[test]
fn render_test_format_command_result_with_exit_code() {
    let result = OutputHandler::format_command_result("", "", 1);
    assert!(result.contains("退出码: 1"));
}

#[test]
fn render_test_format_command_result_zero_exit_code_not_shown() {
    let result = OutputHandler::format_command_result("", "", 0);
    assert!(!result.contains("退出码"));
}

#[test]
fn render_test_format_command_result_negative_exit_code() {
    let result = OutputHandler::format_command_result("", "", -1);
    assert!(result.contains("退出码: -1"));
}

#[test]
fn cli_test_format_command_result_empty() {
    let result = CliRenderer::format_command_result("", "", 0);
    assert_eq!(result, "");
}

#[test]
fn cli_test_format_command_result_only_stdout() {
    let stdout = "line1\nline2\nline3";
    let result = CliRenderer::format_command_result(stdout, "", 0);
    assert!(result.contains("输出:"));
    assert!(result.contains("line1"));
    assert!(result.contains("line2"));
    assert!(result.contains("line3"));
    assert!(!result.contains("错误:"));
}

#[test]
fn cli_test_format_command_result_truncates_long_stdout() {
    let long_output = numbered("line", 10);
    let result = CliRenderer::format_command_result(&long_output, "", 0);
    assert!(result.contains("line0"));
    assert!(result.contains("line4"));
    assert!(result.contains("更多输出已省略"));
}

#[test]
fn cli_test_format_command_result_truncates_long_stderr() {
    let long_error = numbered("error", 10);
    let result = CliRenderer::format_command_result("", &long_error, 0);
    assert!(result.contains("error0"));
    assert!(result.contains("error4"));
    assert!(result.contains("更多错误已省略"));
}

#[test]
fn cli_test_format_command_result_max_5_lines_shown() {
    let long_output = numbered("line", 100);
    let result = CliRenderer::format_command_result(&long_output, "", 0);
    let lines: Vec<&str> = result.lines().filter(|l| l.starts_with("  line")).collect();
    assert_eq!(lines.len(), 5);
}

#[test]
fn cli_test_format_command_result_both_streams() {
    let result = CliRenderer::format_command_result("output", "error", 0);
    assert!(result.contains("输出:"));
    assert!(result.contains("错误:"));
    assert!(result.contains("output"));
    assert!(result.contains("error"));
}

#[test]
fn cli_test_format_command_result_with_exit_code() {
    let result = CliRenderer::format_command_result("", "", 1);
    assert!(result.contains("退出码: 1"));
}

#[test]
fn cli_test_format_command_result_zero_exit_code_not_shown() {
    let result = CliRenderer::format_command_result("", "", 0);
    assert!(!result.contains("退出码"));
}

#[test]
fn cli_test_format_command_result_negative_exit_code() {
    let result = CliRenderer::format_command_result("", "", -1);
    assert!(result.contains("退出码: -1"));
}

// Further cases.

#[test]
fn format_command_result_exact_text() {
    let result = OutputHandler::format_command_result("a\nb", "", 3);
    assert_eq!(result, "输出:\n  a\n  b\n退出码: 3\n");
    let long = numbered("l", 6);
    let result = OutputHandler::format_command_result("", &long, 0);
    assert_eq!(result, "错误:\n  l0\n  l1\n  l2\n  l3\n  l4\n  ... (更多错误已省略)\n");
}

#[test]
fn format_command_result_extreme_exit_codes() {
    assert!(OutputHandler::format_command_result("", "", i64::MIN).contains("退出码: -9223372036854775808"));
    assert!(OutputHandler::format_command_result("", "", i64::MAX).contains("退出码: 9223372036854775807"));
}

#[test]
fn tool_call_shows_the_command() {
    let shown = display_event(&ChatEvent::ToolCall { arguments: r#"{"command": "ls -la"}"#.to_string() }).unwrap();
    assert_eq!(shown.text, "[Bash] ls -la");
    assert_eq!(shown.color, Some(TextColor::Yellow));
    let plain = display_event(&ChatEvent::ToolCall { arguments: "plain".to_string() }).unwrap();
    assert_eq!(plain.text, "[Bash] plain");
}

#[test]
fn tool_result_with_structure_is_formatted() {
    let structured = ToolOutput::from_json(r#"{"stdout": "ok", "stderr": "", "exit_code": 0}"#);
    let shown =
        display_event(&ChatEvent::ToolResult { content: "raw".to_string(), structured: Some(structured) }).unwrap();
    assert_eq!(shown.text, "输出:\n  ok\n");
    let raw = display_event(&ChatEvent::ToolResult { content: "raw".to_string(), structured: None }).unwrap();
    assert_eq!(raw.text, "[工具结果] raw\n");
}

#[test]
fn usage_shows_nothing_and_done_a_newline() {
    let usage = neoco::events::TokenUsage { input_tokens: 1, output_tokens: 2, total_tokens: 3 };
    assert!(display_event(&ChatEvent::Usage(usage)).is_none());
    assert_eq!(display_event(&ChatEvent::Done).unwrap().text, "\n");
}

#[test]
fn disabled_output_handler_shows_nothing() {
    let mut handler = OutputHandler::new(10);
    assert!(handler.handle(&ChatEvent::Text("hi".to_string())).is_some());
    handler.disable_stdout();
    assert!(!handler.uses_stdout());
    assert!(handler.handle(&ChatEvent::Text("hi".to_string())).is_none());
}

#[test]
fn output_callback_stops_once_disabled() {
    let mut handler = OutputHandler::new(0);
    assert_eq!(handler.callback_output("chunk"), Some("chunk".to_string()));
    let copy_before = handler;
    handler.disable_stdout();
    handler.disable_stdout();
    assert_eq!(handler.callback_output("chunk"), None);
    let copy_after = handler;
    assert_eq!(copy_after.callback_output("x"), None);
    assert!(copy_after.handle(&ChatEvent::Text("x".to_string())).is_none());
    assert_eq!(copy_before.callback_output("x"), Some("x".to_string()));
}

#[test]
fn cli_renderer_colors_events() {
    let renderer = CliRenderer::new();
    assert_eq!(renderer.render_event(&ChatEvent::Reasoning("hm".to_string())), "\x1b[36m[思考] hm\x1b[0m");
    assert_eq!(renderer.render_event(&ChatEvent::Text("plain".to_string())), "plain");
    assert_eq!(renderer.render_chunk("x", true), "\x1b[36mx\x1b[0m");
    assert_eq!(renderer.render_chunk("x", false), "x");
}

#[test]
fn renderer_without_color_and_plain_text() {
    let renderer = CliRenderer::no_color();
    assert_eq!(renderer.render_event(&ChatEvent::Reasoning("x".to_string())), "[思考] x");
    assert_eq!(renderer.render_chunk("x", true), "x");
    assert_eq!(CliRenderer::queue_text("abc"), "abc");
    assert_eq!(CliRenderer::queue_colored("abc", TextColor::Green), "\x1b[32mabc\x1b[0m");
}
