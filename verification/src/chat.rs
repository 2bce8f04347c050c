//! The decisions of a chat with a model: what must hold before it starts,
//! what each item of the model's response stream shows and adds to the
//! reply, and the history that the turns build.
//!
//! The caller talks to the model; it hands each stream item to
//! `ChatStream::step` and shows the texts that come back.
use vstd::prelude::*;

use crate::config::{model_name, model_name_of, provider_index, Config, Provider};
use crate::errors::ChatError;
use crate::events::TokenUsage;
use crate::text::prefixed;

verus! {

/// An item of the model's response stream. Texts that the model's library
/// only offers through `Debug` come already formatted.
#[derive(Debug, Clone)]
pub enum StreamItem {
    /// Text of the reply.
    Text(String),
    /// Complete reasoning, as its `Debug` text.
    Reasoning(String),
    /// A piece of reasoning.
    ReasoningDelta(String),
    /// A tool call: the tool's name and its arguments.
    ToolCall { name: String, arguments: String },
    /// A piece of a tool call, as its `Debug` text.
    ToolCallDelta(String),
    /// A tool's result, as its pretty `Debug` text.
    ToolResult(String),
    /// The end of the reply, with the token usage if the model gave it.
    Final(Option<TokenUsage>),
    /// The stream failed, with the error's text.
    Error(String),
    /// Anything else, which shows nothing.
    Other,
}

/// What an item shows, in order.
pub open spec fn item_output(item: StreamItem) -> Seq<Seq<char>> {
    match item {
        StreamItem::Text(t) => seq![t@],
        StreamItem::Reasoning(d) => seq!["[思考] "@ + d@],
        StreamItem::ReasoningDelta(r) => seq!["[思考] "@ + r@],
        StreamItem::ToolCall { name, arguments } => seq!["[工具调用] "@ + name@ + ": "@, arguments@],
        StreamItem::ToolCallDelta(c) => seq!["[工具调用] "@ + c@],
        StreamItem::ToolResult(c) => seq!["[工具结果] "@ + c@ + "\n"@],
        _ => seq![],
    }
}

/// The views of texts.
pub open spec fn texts_view(v: Seq<String>) -> Seq<Seq<char>> {
    v.map_values(|s: String| s@)
}

/// The reply gathered from a stream so far, and the last token usage.
#[derive(Debug)]
pub struct ChatStream {
    full_response: String,
    token_usage: Option<TokenUsage>,
}

impl ChatStream {
    /// The reply so far.
    pub closed spec fn response(&self) -> Seq<char> {
        self.full_response@
    }

    /// The token usage given so far.
    pub closed spec fn usage(&self) -> Option<TokenUsage> {
        self.token_usage
    }

    /// A stream with nothing gathered.
    pub fn new() -> (res: Self)
        ensures
            res.response().len() == 0,
            res.usage() is None,
    {
        ChatStream { full_response: String::new(), token_usage: None }
    }

    /// Takes in one item: its text joins the reply, a final item gives the
    /// usage, an error ends the chat with a stream error; returns what the
    /// item shows (see `item_output`).
    pub fn step(&mut self, item: StreamItem) -> (res: Result<Vec<String>, ChatError>)
        ensures
            match item {
                StreamItem::Error(e) => res matches Err(ChatError::Stream(m)) && m@ == e@,
                _ => res matches Ok(out) && texts_view(out@) == item_output(item),
            },
            final(self).response() == match item {
                StreamItem::Text(t) => old(self).response() + t@,
                _ => old(self).response(),
            },
            final(self).usage() == match item {
                StreamItem::Final(u) => u,
                _ => old(self).usage(),
            },
    {
        let ghost it = item;
        let mut out: Vec<String> = Vec::new();
        match item {
            StreamItem::Text(t) => {
                self.full_response.append(t.as_str());
                out.push(t);
            },
            StreamItem::Reasoning(d) => {
                out.push(prefixed("[思考] ", d.as_str()));
            },
            StreamItem::ReasoningDelta(r) => {
                out.push(prefixed("[思考] ", r.as_str()));
            },
            StreamItem::ToolCall { name, arguments } => {
                let mut head = prefixed("[工具调用] ", name.as_str());
                head.append(": ");
                out.push(head);
                out.push(arguments);
            },
            StreamItem::ToolCallDelta(c) => {
                out.push(prefixed("[工具调用] ", c.as_str()));
            },
            StreamItem::ToolResult(c) => {
                let mut t = prefixed("[工具结果] ", c.as_str());
                t.append("\n");
                out.push(t);
            },
            StreamItem::Final(u) => {
                self.token_usage = u;
            },
            StreamItem::Error(e) => {
                return Err(ChatError::Stream(e));
            },
            StreamItem::Other => {},
        }
        assert(texts_view(out@) =~= item_output(it));
        Ok(out)
    }

    /// Ends the stream: what it shows last (a newline), the reply and the
    /// token usage.
    pub fn finish(self) -> (res: (String, String, Option<TokenUsage>))
        ensures
            res.0@ == "\n"@,
            res.1@ == self.response(),
            res.2 == self.usage(),
    {
        ("\n".to_owned(), self.full_response, self.token_usage)
    }
}

/// What a chat needs to start, besides its provider: the API key and the
/// model's name.
#[derive(Debug, Clone)]
pub struct ChatSetup {
    pub api_key: String,
    pub model_name: String,
}

/// The provider of the chat's model, or the error that there is none.
pub fn chat_provider<'a>(config: &'a Config, model_string: &str) -> (res: Result<&'a Provider, ChatError>)
    ensures
        match provider_index(config.model_providers@, model_string@) {
            Some(i) => res matches Ok(p) && *p == config.model_providers@[i].value,
            None => res matches Err(ChatError::UnknownProvider(m)) && m@ == model_string@,
        },
{
    match config.extract_provider(model_string) {
        Some(p) => Ok(p),
        None => Err(ChatError::UnknownProvider(model_string.to_owned())),
    }
}

/// The setup of a chat with `message_count` messages, from the provider of
/// its model and the value of the provider's key variable (`None` when it
/// is not set): the key must be set, then there must be a message.
pub fn chat_setup(provider: &Provider, key_value: Option<String>, model_string: &str, message_count: usize) -> (res: Result<ChatSetup, ChatError>)
    ensures
        match key_value {
            None => res matches Err(ChatError::ApiKey(m))
                && m@ == "Missing API key: set "@ + provider.api_key_env@ + " environment variable"@,
            Some(k) => if message_count == 0 {
                res matches Err(ChatError::NoMessage)
            } else {
                res matches Ok(s) && s.api_key@ == k@
                    && s.model_name@ == model_name(model_string@)
            },
        },
{
    let api_key = match key_value {
        Some(k) => k,
        None => {
            let mut m = prefixed("Missing API key: set ", provider.api_key_env.as_str());
            m.append(" environment variable");
            return Err(ChatError::ApiKey(m));
        },
    };
    let name = model_name_of(model_string);
    if message_count == 0 {
        return Err(ChatError::NoMessage);
    }
    Ok(ChatSetup { api_key, model_name: name })
}

/// A message of the conversation held for the next turns.
#[derive(Debug, Clone)]
pub enum HistoryMessage {
    /// The user's message.
    User(String),
    /// The assistant's reply.
    Assistant(String),
}

/// The history after a turn: the user's message, then the reply.
pub fn record_turn(history: &mut Vec<HistoryMessage>, message: &str, response: &str)
    ensures
        final(history)@.len() == old(history)@.len() + 2,
        final(history)@.take(old(history)@.len() as int) == old(history)@,
        final(history)@[old(history)@.len() as int] matches HistoryMessage::User(u) && u@ == message@,
        final(history)@[old(history)@.len() as int + 1] matches HistoryMessage::Assistant(a) && a@ == response@,
{
    let ghost before = history@;
    history.push(HistoryMessage::User(message.to_owned()));
    history.push(HistoryMessage::Assistant(response.to_owned()));
    assert(history@.take(before.len() as int) =~= before);
}

} // verus!
