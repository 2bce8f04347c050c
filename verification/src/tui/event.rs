//! Terminal keys and application-level events of the user interface.
use vstd::prelude::*;

use crate::events::ChatEvent;

verus! {

/// The keys that the interface tells apart.
#[derive(Debug, Clone, Copy, PartialEq, Eq)]
pub enum KeyCode {
    /// A character key.
    Char(char),
    Enter,
    Backspace,
    Delete,
    Left,
    Right,
    Home,
    End,
    PageUp,
    PageDown,
    /// Any other key.
    Other,
}

/// Modifier keys held with a key.
#[derive(Debug, Clone, Copy, PartialEq, Eq)]
pub struct KeyModifiers {
    pub shift: bool,
    pub control: bool,
    pub alt: bool,
}

impl KeyModifiers {
    /// No modifier.
    pub fn none() -> (res: Self)
        ensures
            !res.shift && !res.control && !res.alt,
    {
        KeyModifiers { shift: false, control: false, alt: false }
    }
}

/// A key press.
#[derive(Debug, Clone, Copy, PartialEq, Eq)]
pub struct KeyEvent {
    pub code: KeyCode,
    pub modifiers: KeyModifiers,
}

impl KeyEvent {
    /// A key press with the given modifiers.
    pub fn new(code: KeyCode, modifiers: KeyModifiers) -> (res: Self)
        ensures
            res.code == code,
            res.modifiers == modifiers,
    {
        KeyEvent { code, modifiers }
    }
}

/// Raw terminal events.
#[derive(Debug, Clone)]
pub enum TerminalEvent {
    /// A key was pressed.
    Key(KeyEvent),
    /// The terminal was resized.
    Resize(u16, u16),
    /// Text was pasted from the clipboard.
    Paste(String),
}

/// Application-level events.
#[derive(Debug)]
pub enum AppEvent {
    /// A chat event from the agent.
    ChatEvent(ChatEvent),
    /// The user submitted a message to send.
    SendMessage(String),
    /// Scroll the chat pane up.
    ScrollUp(u16),
    /// Scroll the chat pane down.
    ScrollDown(u16),
    /// Exit the application.
    Exit,
}

/// Result of processing an event by a handler.
#[derive(Debug, Clone, Copy, PartialEq, Eq)]
pub enum EventResult {
    /// The event was handled.
    Handled,
    /// The event was not handled (passed to the next handler).
    Ignored,
    /// The application should exit.
    Exit,
}

/// A source of events for the interface: the draw and chat events sent
/// within the program, or the terminal's own events.
#[derive(Debug, Clone, Copy, PartialEq, Eq)]
pub enum EventSource {
    Draw,
    Terminal,
}

/// The order in which one poll of the event stream asks the two sources,
/// and whether the next poll asks the draw source first: the first source
/// alternates from poll to poll, so that neither can starve the other.
pub fn poll_order(draw_first: bool) -> (res: (EventSource, EventSource, bool))
    ensures
        res.2 == !draw_first,
        draw_first ==> res.0 == EventSource::Draw && res.1 == EventSource::Terminal,
        !draw_first ==> res.0 == EventSource::Terminal && res.1 == EventSource::Draw,
{
    if draw_first {
        (EventSource::Draw, EventSource::Terminal, false)
    } else {
        (EventSource::Terminal, EventSource::Draw, true)
    }
}

} // verus!
