//! The state of an agent's chat: its history, the tool call under way,
//! the last token usage and whether a response is awaited.
use vstd::prelude::*;

use crate::events::message::ChatMessage;
use crate::events::TokenUsage;

verus! {

/// A tool call being executed.
#[derive(Debug, Clone)]
pub struct ToolCall {
    /// The command being executed.
    pub command: String,
    /// The arguments passed to the tool.
    pub arguments: String,
}

/// The state of an agent's chat.
#[derive(Debug, Clone)]
pub struct AgentState {
    /// The chat history.
    pub chat_history: Vec<ChatMessage>,
    /// The tool call being executed.
    pub current_tool_call: Option<ToolCall>,
    /// The token usage of the last response.
    pub token_usage: Option<TokenUsage>,
    /// Whether the agent awaits a response.
    pub is_loading: bool,
}

impl AgentState {
    /// An empty state.
    pub fn new() -> (res: Self)
        ensures
            res.chat_history@.len() == 0,
            res.current_tool_call is None,
            res.token_usage is None,
            !res.is_loading,
    {
        AgentState { chat_history: Vec::new(), current_tool_call: None, token_usage: None, is_loading: false }
    }

    /// Adds a message to the history.
    pub fn push_message(&mut self, message: ChatMessage)
        ensures
            final(self).chat_history@ == old(self).chat_history@.push(message),
            final(self).current_tool_call == old(self).current_tool_call,
            final(self).token_usage == old(self).token_usage,
            final(self).is_loading == old(self).is_loading,
    {
        self.chat_history.push(message);
    }

    /// Sets the tool call under way.
    pub fn update_tool_call(&mut self, tool_call: ToolCall)
        ensures
            final(self).chat_history@ == old(self).chat_history@,
            final(self).current_tool_call == Some(tool_call),
            final(self).token_usage == old(self).token_usage,
            final(self).is_loading == old(self).is_loading,
    {
        self.current_tool_call = Some(tool_call);
    }

    /// Clears the tool call under way.
    pub fn clear_tool_call(&mut self)
        ensures
            final(self).chat_history@ == old(self).chat_history@,
            final(self).current_tool_call is None,
            final(self).token_usage == old(self).token_usage,
            final(self).is_loading == old(self).is_loading,
    {
        self.current_tool_call = None;
    }

    /// Records the token usage of the last response.
    pub fn update_usage(&mut self, usage: TokenUsage)
        ensures
            final(self).chat_history@ == old(self).chat_history@,
            final(self).current_tool_call == old(self).current_tool_call,
            final(self).token_usage == Some(usage),
            final(self).is_loading == old(self).is_loading,
    {
        self.token_usage = Some(usage);
    }

    /// Sets whether the agent awaits a response.
    pub fn set_loading(&mut self, loading: bool)
        ensures
            final(self).chat_history@ == old(self).chat_history@,
            final(self).current_tool_call == old(self).current_tool_call,
            final(self).token_usage == old(self).token_usage,
            final(self).is_loading == loading,
    {
        self.is_loading = loading;
    }
}

impl Default for AgentState {
    fn default() -> (res: Self)
        ensures
            res.chat_history@.len() == 0,
            res.current_tool_call is None,
            res.token_usage is None,
            !res.is_loading,
    {
        AgentState::new()
    }
}

} // verus!
