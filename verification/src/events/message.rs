//! Messages of the chat history, and the messages that a tool call and a
//! tool result become.
use vstd::prelude::*;

use crate::events::ToolOutput;
use crate::json::{json_str_field, json_string_field};

verus! {

/// A message in the chat history.
#[derive(Debug, Clone)]
pub enum ChatMessage {
    /// A message from the user.
    User(String),
    /// A message from the assistant.
    Assistant(String),
    /// Reasoning content from the assistant.
    Reasoning(String),
    /// A tool call with its command.
    ToolCall {
        /// The command being executed.
        command: String,
    },
    /// A tool execution result.
    ToolResult {
        /// Standard output from the tool.
        stdout: String,
        /// Standard error from the tool.
        stderr: String,
        /// Exit code of the tool.
        exit_code: i64,
    },
}

/// What a chat message holds.
pub enum MessageView {
    User(Seq<char>),
    Assistant(Seq<char>),
    Reasoning(Seq<char>),
    ToolCall(Seq<char>),
    ToolResult(Seq<char>, Seq<char>, int),
}

impl View for ChatMessage {
    type V = MessageView;

    open spec fn view(&self) -> MessageView {
        match self {
            ChatMessage::User(t) => MessageView::User(t@),
            ChatMessage::Assistant(t) => MessageView::Assistant(t@),
            ChatMessage::Reasoning(t) => MessageView::Reasoning(t@),
            ChatMessage::ToolCall { command } => MessageView::ToolCall(command@),
            ChatMessage::ToolResult { stdout, stderr, exit_code } => MessageView::ToolResult(
                stdout@,
                stderr@,
                *exit_code as int,
            ),
        }
    }
}

/// The message of a tool call: the `command` string of the JSON arguments,
/// or the arguments themselves when they hold none.
pub open spec fn tool_call_message(arguments: Seq<char>) -> MessageView {
    match json_string_field(arguments, "command"@) {
        Some(c) => MessageView::ToolCall(c),
        None => MessageView::ToolCall(arguments),
    }
}

/// The message of a tool result: the structured result when it has all
/// three fields, else the raw content as an assistant message.
pub open spec fn tool_result_message(content: Seq<char>, structured: Option<ToolOutput>) -> MessageView {
    match structured {
        Some(d) => match (d.stdout, d.stderr, d.exit_code) {
            (Some(o), Some(e), Some(c)) => MessageView::ToolResult(o@, e@, c as int),
            _ => MessageView::Assistant(content),
        },
        None => MessageView::Assistant(content),
    }
}

impl ChatMessage {
    /// The message of a tool call with the given JSON arguments.
    pub fn parse_tool_call(arguments: &str) -> (res: Self)
        ensures
            res@ == tool_call_message(arguments@),
    {
        match json_str_field(arguments, "command") {
            Some(command) => ChatMessage::ToolCall { command },
            None => ChatMessage::ToolCall { command: arguments.to_owned() },
        }
    }

    /// The message of a tool result.
    pub fn parse_tool_result(content: &str, structured: &Option<ToolOutput>) -> (res: Self)
        ensures
            res@ == tool_result_message(content@, *structured),
    {
        if let Some(d) = structured {
            if let (Some(o), Some(e), Some(c)) = (&d.stdout, &d.stderr, d.exit_code) {
                return ChatMessage::ToolResult { stdout: o.clone(), stderr: e.clone(), exit_code: c };
            }
        }
        ChatMessage::Assistant(content.to_owned())
    }
}

} // verus!
