//! Tests of the terminal interface: state, input pane, chat pane and the
//! application's handling of events.

use neoco::events::message::ChatMessage;
use neoco::events::{ChatEvent, ToolOutput, UIEvent, UnifiedEvent};
use neoco::tui::app::{App, TuiEvent};
use neoco::tui::chat::{visible_range_of, ChatPane, DisplayLine, HistoryCell};
use neoco::tui::event::{poll_order, EventResult, EventSource, KeyCode, KeyEvent, KeyModifiers};
use neoco::tui::input::{InputPane, InputResult};
use neoco::tui::state::AppState;

fn key_event(code: KeyCode) -> KeyEvent {
    KeyEvent::new(code, KeyModifiers::none())
}

fn key_event_with_mod(code: KeyCode, modifiers: KeyModifiers) -> KeyEvent {
    KeyEvent::new(code, modifiers)
}

fn shift() -> KeyModifiers {
    KeyModifiers { shift: true, control: false, alt: false }
}

fn control() -> KeyModifiers {
    KeyModifiers { shift: false, control: true, alt: false }
}

#[test]
fn test_app_state_new() {
    let state = AppState::new();
    assert_eq!(state.input_text, "");
    assert_eq!(state.input_cursor, 0);
    assert_eq!(state.scroll_offset, 0);
    assert!(!state.should_exit);
    assert_eq!(state.terminal_width, 80);
    assert_eq!(state.terminal_height, 24);
}

#[test]
fn test_resize() {
    let mut state = AppState::new();
    state.resize(100, 50);
    assert_eq!(state.terminal_width, 100);
    assert_eq!(state.terminal_height, 50);
}

#[test]
fn test_clear_input() {
    let mut state = AppState::new();
    state.input_text = "test".to_string();
    state.input_cursor = 4;
    state.clear_input();
    assert_eq!(state.input_text, "");
    assert_eq!(state.input_cursor, 0);
}

#[test]
fn test_new_input_pane_is_empty() {
    let pane = InputPane::new();
    assert!(pane.text().is_empty());
    assert_eq!(pane.cursor(), 0);
}

#[test]
fn test_insert_char() {
    let mut pane = InputPane::new();
    let result = pane.handle_key_event(key_event(KeyCode::Char('a')));
    assert_eq!(result, InputResult::NoAction);
    assert_eq!(pane.text(), "a");
    assert_eq!(pane.cursor(), 1);
}

#[test]
fn test_insert_multiple_chars() {
    let mut pane = InputPane::new();
    let _ = pane.handle_key_event(key_event(KeyCode::Char('h')));
    let _ = pane.handle_key_event(key_event(KeyCode::Char('i')));
    assert_eq!(pane.text(), "hi");
    assert_eq!(pane.cursor(), 2);
}

#[test]
fn test_submit_on_enter() {
    let mut pane = InputPane::new();
    let _ = pane.handle_key_event(key_event(KeyCode::Char('h')));
    let _ = pane.handle_key_event(key_event(KeyCode::Char('i')));
    let result = pane.handle_key_event(key_event(KeyCode::Enter));
    assert_eq!(result, InputResult::Submit("hi".to_string()));
    assert!(pane.text().is_empty());
    assert_eq!(pane.cursor(), 0);
}

#[test]
fn test_shift_enter_inserts_newline() {
    let mut pane = InputPane::new();
    let _ = pane.handle_key_event(key_event(KeyCode::Char('a')));
    let result = pane.handle_key_event(key_event_with_mod(KeyCode::Enter, shift()));
    assert_eq!(result, InputResult::NoAction);
    assert_eq!(pane.text(), "a\n");
}

#[test]
fn test_backspace_deletes_char() {
    let mut pane = InputPane::new();
    let _ = pane.handle_key_event(key_event(KeyCode::Char('a')));
    let _ = pane.handle_key_event(key_event(KeyCode::Char('b')));
    let _ = pane.handle_key_event(key_event(KeyCode::Backspace));
    assert_eq!(pane.text(), "a");
    assert_eq!(pane.cursor(), 1);
}

#[test]
fn test_backspace_at_start_is_noop() {
    let mut pane = InputPane::new();
    let _ = pane.handle_key_event(key_event(KeyCode::Backspace));
    assert!(pane.text().is_empty());
}

#[test]
fn test_delete_forward() {
    let mut pane = InputPane::new();
    let _ = pane.handle_key_event(key_event(KeyCode::Char('a')));
    let _ = pane.handle_key_event(key_event(KeyCode::Char('b')));
    let _ = pane.handle_key_event(key_event(KeyCode::Home));
    let _ = pane.handle_key_event(key_event(KeyCode::Delete));
    assert_eq!(pane.text(), "b");
}

#[test]
fn test_cursor_movement() {
    let mut pane = InputPane::new();
    let _ = pane.handle_key_event(key_event(KeyCode::Char('a')));
    let _ = pane.handle_key_event(key_event(KeyCode::Char('b')));
    let _ = pane.handle_key_event(key_event(KeyCode::Left));
    assert_eq!(pane.cursor(), 1);
    let _ = pane.handle_key_event(key_event(KeyCode::Right));
    assert_eq!(pane.cursor(), 2);
}

#[test]
fn test_home_end_keys() {
    let mut pane = InputPane::new();
    let _ = pane.handle_key_event(key_event(KeyCode::Char('a')));
    let _ = pane.handle_key_event(key_event(KeyCode::Char('b')));
    let _ = pane.handle_key_event(key_event(KeyCode::Home));
    assert_eq!(pane.cursor(), 0);
    let _ = pane.handle_key_event(key_event(KeyCode::End));
    assert_eq!(pane.cursor(), 2);
}

#[test]
fn test_paste_text() {
    let mut pane = InputPane::new();
    pane.handle_paste("hello\nworld");
    assert_eq!(pane.text(), "hello\nworld");
}

#[test]
fn test_paste_normalizes_line_endings() {
    let mut pane = InputPane::new();
    pane.handle_paste("line1\r\nline2\rline3");
    assert_eq!(pane.text(), "line1\nline2\nline3");
}

#[test]
fn test_ctrl_c_returns_none() {
    let mut pane = InputPane::new();
    let result = pane.handle_key_event(key_event_with_mod(KeyCode::Char('c'), control()));
    assert_eq!(result, InputResult::NoAction);
}

#[test]
fn test_chat_pane_new_is_empty() {
    let pane = ChatPane::new();
    assert_eq!(pane.message_count(), 0);
}

#[test]
fn test_chat_pane_push_increments_count() {
    let mut pane = ChatPane::new();
    pane.push(HistoryCell::UserMessage("hello".to_string()));
    assert_eq!(pane.message_count(), 1);
}

#[test]
fn test_chat_pane_push_clears_scroll() {
    let mut pane = ChatPane::new();
    pane.scroll_up(10);
    pane.push(HistoryCell::UserMessage("hello".to_string()));
    assert_eq!(pane.scroll_offset(), 0);
}

#[test]
fn test_chat_pane_scroll_up() {
    let mut pane = ChatPane::new();
    pane.scroll_up(5);
    assert_eq!(pane.scroll_offset(), 5);
    pane.scroll_up(3);
    assert_eq!(pane.scroll_offset(), 8);
}

#[test]
fn test_chat_pane_scroll_down_saturates() {
    let mut pane = ChatPane::new();
    pane.scroll_up(5);
    pane.scroll_down(10);
    assert_eq!(pane.scroll_offset(), 0);
}

#[test]
fn test_user_message_rendering() {
    let cell = HistoryCell::UserMessage("hello".to_string());
    let lines = cell.to_lines();
    assert_eq!(lines.len(), 2);
}

#[test]
fn test_tool_result_rendering() {
    let cell = HistoryCell::ToolResult { stdout: "output".to_string(), stderr: String::new(), exit_code: 0 };
    let lines = cell.to_lines();
    assert!(lines.len() >= 2);
}

#[test]
fn test_tool_result_with_error() {
    let cell = HistoryCell::ToolResult { stdout: String::new(), stderr: "error".to_string(), exit_code: 1 };
    let lines = cell.to_lines();
    assert!(lines.len() >= 3);
}

#[test]
fn test_code_block_highlighting() {
    let mut pane = ChatPane::new();
    pane.push(HistoryCell::AssistantMessage("Here is code:\n```rust\nfn main() {}\n```".to_string()));
    let lines = pane.all_lines();
    assert!(!lines.is_empty());
}

#[test]
fn test_app_new_creates_empty_state() {
    let app = App::new();
    assert_eq!(app.state().scroll_offset, 0);
}

#[test]
fn test_handle_submit_adds_message() {
    let mut app = App::new();
    let result = app.handle_submit("hello");
    assert_eq!(result, EventResult::Handled);
    assert_eq!(app.chat_pane().message_count(), 1);
}

#[test]
fn test_handle_submit_ignores_empty() {
    let mut app = App::new();
    let result = app.handle_submit("   ");
    assert_eq!(result, EventResult::Handled);
    assert_eq!(app.chat_pane().message_count(), 0);
}

#[test]
fn test_handle_chat_text_event() {
    let mut app = App::new();
    app.handle_chat_event(ChatEvent::Text("response".to_string()));
    assert_eq!(app.chat_pane().message_count(), 1);
}

#[test]
fn test_handle_chat_reasoning_event() {
    let mut app = App::new();
    app.handle_chat_event(ChatEvent::Reasoning("thinking".to_string()));
    assert_eq!(app.chat_pane().message_count(), 1);
}

#[test]
fn test_key_ctrl_c_exits() {
    let mut app = App::new();
    let key = KeyEvent::new(KeyCode::Char('c'), control());
    let result = app.handle_key_event(key);
    assert_eq!(result, EventResult::Exit);
    assert!(app.state().should_exit);
}

#[test]
fn test_key_page_up_scrolls() {
    let mut app = App::new();
    let key = KeyEvent::new(KeyCode::PageUp, KeyModifiers::none());
    let result = app.handle_key_event(key);
    assert_eq!(result, EventResult::Handled);
}

#[test]
fn test_key_page_down_scrolls() {
    let mut app = App::new();
    let key = KeyEvent::new(KeyCode::PageDown, KeyModifiers::none());
    let result = app.handle_key_event(key);
    assert_eq!(result, EventResult::Handled);
}

// Further cases.

#[test]
fn submit_sends_the_trimmed_message() {
    let mut app = App::new();
    app.handle_submit("  hello world \n");
    let out = app.take_outbox();
    assert_eq!(out.len(), 1);
    match &out[0] {
        UnifiedEvent::UI(UIEvent::SendMessage(s)) => assert_eq!(s, "hello world"),
        other => panic!("unexpected event: {other:?}"),
    }
    assert!(app.take_outbox().is_empty());
}

#[test]
fn typing_then_enter_submits_through_the_app() {
    let mut app = App::new();
    for c in "hi".chars() {
        app.handle_terminal_event(TuiEvent::Key(key_event(KeyCode::Char(c))));
    }
    let result = app.handle_terminal_event(TuiEvent::Key(key_event(KeyCode::Enter)));
    assert_eq!(result, EventResult::Handled);
    assert_eq!(app.chat_pane().message_count(), 1);
    assert!(app.input_pane().text().is_empty());
}

#[test]
fn page_keys_scroll_by_ten() {
    let mut app = App::new();
    app.handle_key_event(key_event(KeyCode::PageUp));
    assert_eq!(app.chat_pane().scroll_offset(), 10);
    app.handle_key_event(key_event(KeyCode::PageDown));
    assert_eq!(app.chat_pane().scroll_offset(), 0);
}

#[test]
fn ui_events_scroll_and_exit() {
    let mut app = App::new();
    app.handle_unified_event(UnifiedEvent::UI(UIEvent::ScrollUp(3)));
    assert_eq!(app.chat_pane().scroll_offset(), 3);
    app.handle_unified_event(UnifiedEvent::UI(UIEvent::ScrollDown(1)));
    assert_eq!(app.chat_pane().scroll_offset(), 2);
    app.handle_unified_event(UnifiedEvent::UI(UIEvent::SendMessage("x".to_string())));
    assert_eq!(app.chat_pane().message_count(), 0);
    app.handle_unified_event(UnifiedEvent::UI(UIEvent::Exit));
    assert!(app.state().should_exit);
}

#[test]
fn tool_events_become_tool_cells() {
    let mut app = App::new();
    app.handle_chat_event(ChatEvent::ToolCall { arguments: r#"{"command": "ls"}"#.to_string() });
    let structured = ToolOutput::from_json(r#"{"stdout": "a", "stderr": "b", "exit_code": 2}"#);
    app.handle_chat_event(ChatEvent::ToolResult { content: "raw".to_string(), structured: Some(structured) });
    app.handle_chat_event(ChatEvent::Done);
    assert_eq!(app.chat_pane().message_count(), 2);
    let lines = app.chat_pane().all_lines();
    match &lines[0] {
        DisplayLine::Spans(spans) => {
            assert_eq!(spans[0].text, "[Bash] ");
            assert_eq!(spans[1].text, "ls");
        },
        other => panic!("unexpected line: {other:?}"),
    }
}

#[test]
fn paste_event_goes_to_the_input() {
    let mut app = App::new();
    app.handle_terminal_event(TuiEvent::Paste("a\r\nb".to_string()));
    assert_eq!(app.input_pane().text(), "a\nb");
    assert_eq!(app.handle_terminal_event(TuiEvent::Draw), EventResult::Handled);
}

#[test]
fn code_blocks_are_kept_as_blocks() {
    let cell = HistoryCell::AssistantMessage("Here is code:\n```rust\nfn main() {}\n```\nafter".to_string());
    let lines = cell.to_lines();
    assert_eq!(lines.len(), 4);
    match &lines[1] {
        DisplayLine::Code { language, code } => {
            assert_eq!(language.as_deref(), Some("rust"));
            assert_eq!(code, "fn main() {}\n");
        },
        other => panic!("unexpected line: {other:?}"),
    }
}

#[test]
fn long_tool_output_is_cut_after_five_lines() {
    let out = (0..8).map(|i| format!("l{i}")).collect::<Vec<_>>().join("\n");
    let cell = HistoryCell::ToolResult { stdout: out, stderr: String::new(), exit_code: 0 };
    let lines = cell.to_lines();
    assert_eq!(lines.len(), 8);
    match &lines[6] {
        DisplayLine::Spans(spans) => assert_eq!(spans[0].text, "  ... (3 more lines)"),
        other => panic!("unexpected line: {other:?}"),
    }
}

#[test]
fn visible_range_cases() {
    assert_eq!(visible_range_of(0, 5, 10), (0, 0));
    assert_eq!(visible_range_of(30, 0, 10), (20, 30));
    assert_eq!(visible_range_of(30, 5, 10), (15, 25));
    assert_eq!(visible_range_of(30, 100, 10), (0, 1));
    let mut pane = ChatPane::new();
    pane.push(HistoryCell::UserMessage("a".to_string()));
    assert_eq!(pane.visible_range(1), (1, 2));
}

#[test]
fn chat_message_from_tool_call() {
    match ChatMessage::parse_tool_call("not json") {
        ChatMessage::ToolCall { command } => assert_eq!(command, "not json"),
        other => panic!("unexpected message: {other:?}"),
    }
}

#[test]
fn backspace_undoes_a_typed_char() {
    let mut pane = InputPane::new();
    pane.handle_paste("abc");
    let _ = pane.handle_key_event(key_event(KeyCode::Left));
    let _ = pane.handle_key_event(key_event(KeyCode::Char('x')));
    assert_eq!(pane.text(), "abxc");
    let _ = pane.handle_key_event(key_event(KeyCode::Backspace));
    assert_eq!(pane.text(), "abc");
    assert_eq!(pane.cursor(), 2);
}

#[test]
fn pasted_text_has_no_carriage_return() {
    let mut pane = InputPane::new();
    pane.handle_paste("a\r\r\nb\r");
    assert_eq!(pane.text(), "a\n\nb\n");
    assert!(!pane.text().contains('\r'));
}

#[test]
fn cursor_counts_bytes() {
    let mut pane = InputPane::new();
    pane.handle_paste("é");
    assert_eq!(pane.cursor(), 2);
}

#[test]
fn cursor_moves_over_whole_utf8_characters() {
    let mut pane = InputPane::new();
    let _ = pane.handle_key_event(key_event(KeyCode::Char('a')));
    assert_eq!(pane.cursor(), 1);
    let _ = pane.handle_key_event(key_event(KeyCode::Char('é')));
    assert_eq!(pane.cursor(), 3);
    let _ = pane.handle_key_event(key_event(KeyCode::Char('思')));
    assert_eq!(pane.cursor(), 6);
    assert_eq!(pane.text(), "aé思");
    let _ = pane.handle_key_event(key_event(KeyCode::Left));
    assert_eq!(pane.cursor(), 3);
    let _ = pane.handle_key_event(key_event(KeyCode::Left));
    assert_eq!(pane.cursor(), 1);
    let _ = pane.handle_key_event(key_event(KeyCode::Right));
    assert_eq!(pane.cursor(), 3);
    let _ = pane.handle_key_event(key_event(KeyCode::Backspace));
    assert_eq!(pane.text(), "a思");
    assert_eq!(pane.cursor(), 1);
    assert!(pane.text().is_char_boundary(pane.cursor()));
}

#[test]
fn poll_order_alternates_between_sources() {
    assert_eq!(poll_order(true), (EventSource::Draw, EventSource::Terminal, false));
    assert_eq!(poll_order(false), (EventSource::Terminal, EventSource::Draw, true));
}
