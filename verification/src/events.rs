//! Events of the application: those of a chat stream, of the user
//! interface, and the unified event that carries any of them.
use vstd::prelude::*;

use crate::json::{json_i64_field, json_i64_field_of, json_str_field, json_string_field};
use crate::tui::event::TerminalEvent;

pub mod message;

verus! {

/// Token usage statistics reported by the model.
#[derive(Debug, Clone, Copy, PartialEq, Eq)]
pub struct TokenUsage {
    /// Tokens of the prompt.
    pub input_tokens: u64,
    /// Tokens of the answer.
    pub output_tokens: u64,
    /// All tokens.
    pub total_tokens: u64,
}

/// The fields of a tool's structured result that are displayed: they are
/// `Some` when the tool reported them with the expected JSON type (strings
/// for the streams, an integer for the exit code).
#[derive(Debug, Clone)]
pub struct ToolOutput {
    /// Standard output.
    pub stdout: Option<String>,
    /// Standard error.
    pub stderr: Option<String>,
    /// Exit code.
    pub exit_code: Option<i64>,
}

/// The view of an optional string.
pub open spec fn opt_chars(o: Option<String>) -> Option<Seq<char>> {
    match o {
        Some(s) => Some(s@),
        None => None,
    }
}

impl ToolOutput {
    /// Reads the fields `stdout`, `stderr` (strings) and `exit_code` (an
    /// integer) of the JSON object `text`.
    pub fn from_json(text: &str) -> (res: Self)
        ensures
            opt_chars(res.stdout) == json_string_field(text@, "stdout"@),
            opt_chars(res.stderr) == json_string_field(text@, "stderr"@),
            res.exit_code == json_i64_field_of(text@, "exit_code"@),
    {
        ToolOutput {
            stdout: json_str_field(text, "stdout"),
            stderr: json_str_field(text, "stderr"),
            exit_code: json_i64_field(text, "exit_code"),
        }
    }
}

/// Events produced during a chat stream.
#[derive(Debug, Clone)]
pub enum ChatEvent {
    /// Plain text content from the model.
    Text(String),
    /// Complete reasoning content from the model.
    Reasoning(String),
    /// Incremental reasoning delta from the model.
    ReasoningDelta(String),
    /// Tool call request from the model.
    ToolCall {
        /// Arguments passed to the tool.
        arguments: String,
    },
    /// Incremental tool call delta from the model.
    ToolCallDelta(String),
    /// Result from a tool execution.
    ToolResult {
        /// Serialized content of the tool result.
        content: String,
        /// Structured data, for tools that return structured results.
        structured: Option<ToolOutput>,
    },
    /// Token usage statistics from the model.
    Usage(TokenUsage),
    /// The stream has completed.
    Done,
}

/// Events of the user interface.
#[derive(Debug, Clone, PartialEq, Eq)]
pub enum UIEvent {
    /// Scroll the chat pane up by the given number of lines.
    ScrollUp(u16),
    /// Scroll the chat pane down by the given number of lines.
    ScrollDown(u16),
    /// The user submitted a message to send.
    SendMessage(String),
    /// Request to exit the application.
    Exit,
}

/// Any event of the application.
#[derive(Debug, Clone)]
pub enum UnifiedEvent {
    /// An event of the terminal.
    Terminal(TerminalEvent),
    /// An event of the chat stream.
    Chat(ChatEvent),
    /// An event of the user interface.
    UI(UIEvent),
}

} // verus!
