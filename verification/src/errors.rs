//! The application's error types and their messages.
//!
//! A message is known exactly unless it shows the text of an I/O or JSON
//! error, which the library does not state; then its known part is a prefix.
use vstd::prelude::*;

use crate::sandbox::error::io_error_text;
use crate::text::{begins_with, lemma_begins_with_after, lemma_begins_with_self, prefixed};

verus! {

#[verifier::external_type_specification]
#[verifier::external_body]
pub struct ExJsonError(serde_json::Error);

/// Calls `ToString::to_string` on a `serde_json::Error`. The text is not
/// stated.
#[verifier::external_body]
pub(crate) fn json_error_text(e: &serde_json::Error) -> String {
    e.to_string()
}

/// `prefix` followed by the text of an I/O error.
fn io_message(prefix: &str, e: &std::io::Error) -> (res: String)
    ensures
        begins_with(res@, prefix@),
{
    let t = io_error_text(e);
    let res = prefixed(prefix, t.as_str());
    assert(res@.subrange(0, prefix@.len() as int) =~= prefix@);
    res
}

/// `prefix` followed by a message whose known part is `known`.
fn nested_message(prefix: &str, inner: String, Ghost(known): Ghost<Seq<char>>) -> (res: String)
    requires
        begins_with(inner@, known),
    ensures
        begins_with(res@, prefix@ + known),
        inner@ == known ==> res@ == prefix@ + known,
{
    let res = prefixed(prefix, inner.as_str());
    proof {
        lemma_begins_with_after(prefix@, inner@, known);
    }
    res
}

/// Errors of the event system.
#[derive(Debug)]
pub enum EventError {
    /// Sending on the event bus failed.
    EventBusSend(String),
    /// Receiving from the event bus failed.
    EventBusRecv(String),
    /// Terminal I/O failed.
    Terminal(std::io::Error),
}

/// The known part of an event error's message.
pub open spec fn event_error_text(e: EventError) -> Seq<char> {
    match e {
        EventError::EventBusSend(s) => "Event bus send error: "@ + s@,
        EventError::EventBusRecv(s) => "Event bus receive error: "@ + s@,
        EventError::Terminal(_) => "Terminal I/O error: "@,
    }
}

impl EventError {
    /// The error's message.
    pub fn message(&self) -> (res: String)
        ensures
            begins_with(res@, event_error_text(*self)),
            !(*self is Terminal) ==> res@ == event_error_text(*self),
    {
        let res = match self {
            EventError::EventBusSend(s) => prefixed("Event bus send error: ", s.as_str()),
            EventError::EventBusRecv(s) => prefixed("Event bus receive error: ", s.as_str()),
            EventError::Terminal(e) => io_message("Terminal I/O error: ", e),
        };
        proof {
            lemma_begins_with_self(res@);
        }
        res
    }
}

impl From<std::io::Error> for EventError {
    fn from(e: std::io::Error) -> (res: Self)
        ensures
            res is Terminal,
    {
        EventError::Terminal(e)
    }
}

impl vstd::std_specs::convert::FromSpecImpl<std::io::Error> for EventError {
    open spec fn obeys_from_spec() -> bool {
        true
    }

    open spec fn from_spec(v: std::io::Error) -> EventError {
        EventError::Terminal(v)
    }
}

/// Errors of input and output.
#[derive(Debug, Clone, PartialEq, Eq)]
pub enum IoError {
    /// Reading input failed.
    ReadInput(String),
    /// Writing output failed.
    WriteOutput(String),
    /// A terminal operation failed.
    Terminal(String),
}

/// An I/O error's message.
pub open spec fn io_error_message(e: IoError) -> Seq<char> {
    match e {
        IoError::ReadInput(s) => "Failed to read input: "@ + s@,
        IoError::WriteOutput(s) => "Failed to write output: "@ + s@,
        IoError::Terminal(s) => "Terminal error: "@ + s@,
    }
}

impl IoError {
    /// The error's message.
    pub fn message(&self) -> (res: String)
        ensures
            res@ == io_error_message(*self),
    {
        match self {
            IoError::ReadInput(s) => prefixed("Failed to read input: ", s.as_str()),
            IoError::WriteOutput(s) => prefixed("Failed to write output: ", s.as_str()),
            IoError::Terminal(s) => prefixed("Terminal error: ", s.as_str()),
        }
    }
}

/// Errors of rendering the user interface.
#[derive(Debug)]
pub enum RenderError {
    /// An I/O error during rendering.
    Io(std::io::Error),
    /// A terminal error.
    Terminal(String),
    /// Rendering failed.
    RenderFailed(String),
}

/// The known part of a render error's message.
pub open spec fn render_error_text(e: RenderError) -> Seq<char> {
    match e {
        RenderError::Io(_) => "IO error: "@,
        RenderError::Terminal(s) => "Terminal error: "@ + s@,
        RenderError::RenderFailed(s) => "Render failed: "@ + s@,
    }
}

impl RenderError {
    /// The error's message.
    pub fn message(&self) -> (res: String)
        ensures
            begins_with(res@, render_error_text(*self)),
            !(*self is Io) ==> res@ == render_error_text(*self),
    {
        let res = match self {
            RenderError::Io(e) => io_message("IO error: ", e),
            RenderError::Terminal(s) => prefixed("Terminal error: ", s.as_str()),
            RenderError::RenderFailed(s) => prefixed("Render failed: ", s.as_str()),
        };
        proof {
            lemma_begins_with_self(res@);
        }
        res
    }
}

impl From<std::io::Error> for RenderError {
    fn from(e: std::io::Error) -> (res: Self)
        ensures
            res is Io,
    {
        RenderError::Io(e)
    }
}

impl vstd::std_specs::convert::FromSpecImpl<std::io::Error> for RenderError {
    open spec fn obeys_from_spec() -> bool {
        true
    }

    open spec fn from_spec(v: std::io::Error) -> RenderError {
        RenderError::Io(v)
    }
}

/// Errors of a chat.
#[derive(Debug)]
pub enum ChatError {
    /// No message was given to send.
    NoMessage,
    /// The provider of the model is not configured.
    UnknownProvider(String),
    /// The API key could not be had.
    ApiKey(String),
    /// The client for the provider could not be created.
    ClientCreation(String),
    /// JSON serialization or deserialization failed.
    JsonSerialization(serde_json::Error),
    /// Streaming the chat's responses failed.
    Stream(String),
    /// Rendering failed.
    Render(RenderError),
}

/// The known part of a chat error's message.
pub open spec fn chat_error_text(e: ChatError) -> Seq<char> {
    match e {
        ChatError::NoMessage => "No message provided. Use -M/--message to send a message."@,
        ChatError::UnknownProvider(s) => "Unknown provider for model: "@ + s@,
        ChatError::ApiKey(s) => "API key error: "@ + s@,
        ChatError::ClientCreation(s) => "Failed to create client: "@ + s@,
        ChatError::JsonSerialization(_) => "JSON serialization failed: "@,
        ChatError::Stream(s) => "Stream error: "@ + s@,
        ChatError::Render(r) => "Render error: "@ + render_error_text(r),
    }
}

/// Whether a chat error's message is known exactly.
pub open spec fn chat_error_exact(e: ChatError) -> bool {
    match e {
        ChatError::JsonSerialization(_) => false,
        ChatError::Render(r) => !(r is Io),
        _ => true,
    }
}

impl ChatError {
    /// The error's message.
    pub fn message(&self) -> (res: String)
        ensures
            begins_with(res@, chat_error_text(*self)),
            chat_error_exact(*self) ==> res@ == chat_error_text(*self),
    {
        let res = match self {
            ChatError::NoMessage => "No message provided. Use -M/--message to send a message.".to_owned(),
            ChatError::UnknownProvider(s) => prefixed("Unknown provider for model: ", s.as_str()),
            ChatError::ApiKey(s) => prefixed("API key error: ", s.as_str()),
            ChatError::ClientCreation(s) => prefixed("Failed to create client: ", s.as_str()),
            ChatError::JsonSerialization(e) => {
                let t = json_error_text(e);
                let res = prefixed("JSON serialization failed: ", t.as_str());
                assert(res@.subrange(0, "JSON serialization failed: "@.len() as int)
                    =~= "JSON serialization failed: "@);
                res
            },
            ChatError::Stream(s) => prefixed("Stream error: ", s.as_str()),
            ChatError::Render(r) => nested_message("Render error: ", r.message(), Ghost(render_error_text(*r))),
        };
        proof {
            lemma_begins_with_self(res@);
        }
        res
    }
}

impl From<serde_json::Error> for ChatError {
    fn from(e: serde_json::Error) -> (res: Self)
        ensures
            res is JsonSerialization,
    {
        ChatError::JsonSerialization(e)
    }
}

impl vstd::std_specs::convert::FromSpecImpl<serde_json::Error> for ChatError {
    open spec fn obeys_from_spec() -> bool {
        true
    }

    open spec fn from_spec(v: serde_json::Error) -> ChatError {
        ChatError::JsonSerialization(v)
    }
}

impl From<RenderError> for ChatError {
    fn from(e: RenderError) -> (res: Self)
        ensures
            res == ChatError::Render(e),
    {
        ChatError::Render(e)
    }
}

impl vstd::std_specs::convert::FromSpecImpl<RenderError> for ChatError {
    open spec fn obeys_from_spec() -> bool {
        true
    }

    open spec fn from_spec(v: RenderError) -> ChatError {
        ChatError::Render(v)
    }
}

/// Any error of the application.
#[derive(Debug)]
pub enum NeocoError {
    /// A chat error.
    Chat(ChatError),
    /// An event error.
    Event(EventError),
    /// An I/O error.
    Io(IoError),
}

/// The known part of an application error's message.
pub open spec fn neoco_error_text(e: NeocoError) -> Seq<char> {
    match e {
        NeocoError::Chat(c) => "Chat error: "@ + chat_error_text(c),
        NeocoError::Event(v) => "Event error: "@ + event_error_text(v),
        NeocoError::Io(i) => "I/O error: "@ + io_error_message(i),
    }
}

/// Whether an application error's message is known exactly.
pub open spec fn neoco_error_exact(e: NeocoError) -> bool {
    match e {
        NeocoError::Chat(c) => chat_error_exact(c),
        NeocoError::Event(v) => !(v is Terminal),
        NeocoError::Io(_) => true,
    }
}

impl NeocoError {
    /// The error's message.
    pub fn message(&self) -> (res: String)
        ensures
            begins_with(res@, neoco_error_text(*self)),
            neoco_error_exact(*self) ==> res@ == neoco_error_text(*self),
    {
        match self {
            NeocoError::Chat(c) => nested_message("Chat error: ", c.message(), Ghost(chat_error_text(*c))),
            NeocoError::Event(v) => nested_message("Event error: ", v.message(), Ghost(event_error_text(*v))),
            NeocoError::Io(i) => {
                let m = i.message();
                proof {
                    lemma_begins_with_self(m@);
                }
                nested_message("I/O error: ", m, Ghost(io_error_message(*i)))
            },
        }
    }
}

impl From<ChatError> for NeocoError {
    fn from(e: ChatError) -> (res: Self)
        ensures
            res == NeocoError::Chat(e),
    {
        NeocoError::Chat(e)
    }
}

impl vstd::std_specs::convert::FromSpecImpl<ChatError> for NeocoError {
    open spec fn obeys_from_spec() -> bool {
        true
    }

    open spec fn from_spec(v: ChatError) -> NeocoError {
        NeocoError::Chat(v)
    }
}

impl From<EventError> for NeocoError {
    fn from(e: EventError) -> (res: Self)
        ensures
            res == NeocoError::Event(e),
    {
        NeocoError::Event(e)
    }
}

impl vstd::std_specs::convert::FromSpecImpl<EventError> for NeocoError {
    open spec fn obeys_from_spec() -> bool {
        true
    }

    open spec fn from_spec(v: EventError) -> NeocoError {
        NeocoError::Event(v)
    }
}

impl From<IoError> for NeocoError {
    fn from(e: IoError) -> (res: Self)
        ensures
            res == NeocoError::Io(e),
    {
        NeocoError::Io(e)
    }
}

impl vstd::std_specs::convert::FromSpecImpl<IoError> for NeocoError {
    open spec fn obeys_from_spec() -> bool {
        true
    }

    open spec fn from_spec(v: IoError) -> NeocoError {
        NeocoError::Io(v)
    }
}

} // verus!
