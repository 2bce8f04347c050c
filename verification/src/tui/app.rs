//! The application's decisions: how each terminal, user-interface and chat
//! event changes the state, the chat pane and the input pane, and which
//! events it sends.
//!
//! The event loop itself (drawing, reading the terminal, the event bus) is
//! the caller's: it hands each event to `App` and sends the events that
//! `take_outbox` returns.
use vstd::prelude::*;

use super::chat::{cell_view, pushed, scrolled_down, scrolled_up, ChatPane, ChatPaneView, HistoryCell};
use super::event::{EventResult, KeyCode, KeyEvent};
use super::input::{after_insert, key_effect, normalize_newlines, InputPane, InputResult, InputView};
use super::state::{initial_state, AppState};
use crate::events::message::{tool_call_message, tool_result_message, ChatMessage, MessageView};
use crate::events::{ChatEvent, UIEvent, UnifiedEvent};
use crate::text::{chars_of, is_ws, law_trimmed_edges, string_of, trim_chars, trimmed};

verus! {

/// Events of the terminal as the application sees them.
#[derive(Debug, Clone)]
pub enum TuiEvent {
    /// A key was pressed.
    Key(KeyEvent),
    /// Text was pasted.
    Paste(String),
    /// A redraw is due.
    Draw,
}

/// The application: its state, its panes, and the events it has to send.
#[derive(Debug)]
pub struct App {
    state: AppState,
    chat_pane: ChatPane,
    input_pane: InputPane,
    outbox: Vec<UnifiedEvent>,
}

/// What the application holds.
pub struct AppView {
    pub state: AppState,
    pub chat: ChatPaneView,
    pub input: InputView,
    pub outbox: Seq<UnifiedEvent>,
}

impl View for App {
    type V = AppView;

    closed spec fn view(&self) -> AppView {
        AppView {
            state: self.state,
            chat: self.chat_pane@,
            input: self.input_pane@,
            outbox: self.outbox@,
        }
    }
}

/// The cell that a chat event adds to the chat pane, if any.
pub open spec fn event_cell(event: ChatEvent) -> Option<MessageView> {
    match event {
        ChatEvent::Text(t) => Some(MessageView::Assistant(t@)),
        ChatEvent::Reasoning(c) => Some(MessageView::Reasoning(c@)),
        ChatEvent::ReasoningDelta(c) => Some(MessageView::Reasoning(c@)),
        ChatEvent::ToolCall { arguments } => Some(tool_call_message(arguments@)),
        ChatEvent::ToolResult { content, structured } => Some(tool_result_message(content@, structured)),
        _ => None,
    }
}

/// `new` is `old` with one cell added at the bottom, showing `cell`.
pub open spec fn pushed_cell(old: ChatPaneView, new: ChatPaneView, cell: MessageView) -> bool {
    &&& new.history.len() == old.history.len() + 1
    &&& new.history.drop_last() == old.history
    &&& cell_view(new.history.last()) == cell
    &&& new.scroll_offset == 0
}

/// The state with the input cleared.
pub open spec fn input_cleared(old: AppState, new: AppState) -> bool {
    &&& new.input_text@.len() == 0
    &&& new.input_cursor == 0
    &&& new.scroll_offset == old.scroll_offset
    &&& new.should_exit == old.should_exit
    &&& new.terminal_width == old.terminal_width
    &&& new.terminal_height == old.terminal_height
}

/// The state asked to exit.
pub open spec fn exit_requested(old: AppState, new: AppState) -> bool {
    new == AppState { should_exit: true, ..old }
}

/// What submitting `text` does, the input pane aside: a text that is blank
/// once trimmed does nothing; another is shown as the user's message, sent
/// as a `SendMessage` event, and the input state is cleared.
pub open spec fn submitted(old: AppView, new: AppView, text: Seq<char>) -> bool {
    let t = trimmed(text);
    if t.len() == 0 {
        &&& new.state == old.state
        &&& new.chat == old.chat
        &&& new.outbox == old.outbox
    } else {
        &&& pushed_cell(old.chat, new.chat, MessageView::User(t))
        &&& new.outbox.len() == old.outbox.len() + 1
        &&& new.outbox.drop_last() == old.outbox
        &&& new.outbox.last() matches UnifiedEvent::UI(UIEvent::SendMessage(s)) && s@ == t
        &&& input_cleared(old.state, new.state)
    }
}

/// What a key does: Ctrl+C asks to exit; Page Up and Page Down scroll the
/// chat by ten lines; any other key goes to the input pane, and a text it
/// submits is submitted.
pub open spec fn key_step(old: AppView, new: AppView, key: KeyEvent, res: EventResult) -> bool {
    if key.code == KeyCode::Char('c') && key.modifiers.control {
        &&& res == EventResult::Exit
        &&& exit_requested(old.state, new.state)
        &&& new.chat == old.chat
        &&& new.input == old.input
        &&& new.outbox == old.outbox
    } else if key.code == KeyCode::PageUp {
        &&& res == EventResult::Handled
        &&& new == AppView { chat: scrolled_up(old.chat, 10), ..old }
    } else if key.code == KeyCode::PageDown {
        &&& res == EventResult::Handled
        &&& new == AppView { chat: scrolled_down(old.chat, 10), ..old }
    } else {
        &&& res == EventResult::Handled
        &&& new.input == key_effect(old.input, key).0
        &&& match key_effect(old.input, key).1 {
            Some(t) => submitted(old, new, t),
            None => new.state == old.state && new.chat == old.chat && new.outbox == old.outbox,
        }
    }
}

/// What a chat event does: its cell, if it has one, is added to the chat.
pub open spec fn chat_step(old: AppView, new: AppView, event: ChatEvent) -> bool {
    match event_cell(event) {
        Some(c) => pushed_cell(old.chat, new.chat, c) && new.state == old.state && new.input == old.input
            && new.outbox == old.outbox,
        None => new == old,
    }
}

/// What a user-interface event does: scrolling scrolls the chat, `Exit`
/// asks to exit, and `SendMessage` is left to the caller.
pub open spec fn ui_step(old: AppView, new: AppView, event: UIEvent) -> bool {
    match event {
        UIEvent::SendMessage(_) => new == old,
        UIEvent::Exit => new == AppView { state: AppState { should_exit: true, ..old.state }, ..old },
        UIEvent::ScrollUp(n) => new == AppView { chat: scrolled_up(old.chat, n as int), ..old },
        UIEvent::ScrollDown(n) => new == AppView { chat: scrolled_down(old.chat, n as int), ..old },
    }
}

impl App {
    /// A new application: new state, empty panes, nothing to send.
    pub fn new() -> (res: Self)
        ensures
            initial_state(res@.state),
            res@.chat.history.len() == 0,
            res@.chat.scroll_offset == 0,
            res@.input.text.len() == 0,
            res@.input.pos == 0,
            res@.outbox.len() == 0,
    {
        App { state: AppState::new(), chat_pane: ChatPane::new(), input_pane: InputPane::new(), outbox: Vec::new() }
    }

    /// The application state.
    pub fn state(&self) -> (res: &AppState)
        ensures
            *res == self@.state,
    {
        &self.state
    }

    /// The chat pane.
    pub fn chat_pane(&self) -> (res: &ChatPane)
        ensures
            res@ == self@.chat,
    {
        &self.chat_pane
    }

    /// The input pane.
    pub fn input_pane(&self) -> (res: &InputPane)
        ensures
            res@ == self@.input,
    {
        &self.input_pane
    }

    /// Records the terminal's size.
    pub fn resize(&mut self, width: u16, height: u16)
        ensures
            final(self)@ == (AppView {
                state: AppState { terminal_width: width, terminal_height: height, ..old(self)@.state },
                ..old(self)@
            }),
    {
        self.state.resize(width, height);
    }

    /// Takes the events to send, leaving none.
    pub fn take_outbox(&mut self) -> (res: Vec<UnifiedEvent>)
        ensures
            res@ == old(self)@.outbox,
            final(self)@ == (AppView { outbox: seq![], ..old(self)@ }),
    {
        let mut out: Vec<UnifiedEvent> = Vec::new();
        std::mem::swap(&mut out, &mut self.outbox);
        out
    }

    /// Handles a terminal event.
    pub fn handle_terminal_event(&mut self, event: TuiEvent) -> (res: EventResult)
        ensures
            match event {
                TuiEvent::Key(key) => key_step(old(self)@, final(self)@, key, res),
                TuiEvent::Paste(t) => res == EventResult::Handled && final(self)@ == (AppView {
                    input: after_insert(old(self)@.input, normalize_newlines(t@)),
                    ..old(self)@
                }),
                TuiEvent::Draw => res == EventResult::Handled && final(self)@ == old(self)@,
            },
    {
        match event {
            TuiEvent::Key(key) => self.handle_key_event(key),
            TuiEvent::Paste(text) => {
                self.input_pane.handle_paste(text.as_str());
                EventResult::Handled
            },
            TuiEvent::Draw => EventResult::Handled,
        }
    }

    /// Handles a key (see `key_step`).
    pub fn handle_key_event(&mut self, key: KeyEvent) -> (res: EventResult)
        ensures
            key_step(old(self)@, final(self)@, key, res),
    {
        let ctrl_c = match key.code {
            KeyCode::Char(c) => c == 'c' && key.modifiers.control,
            _ => false,
        };
        if ctrl_c {
            self.state.should_exit = true;
            return EventResult::Exit;
        }
        match key.code {
            KeyCode::PageUp => {
                self.chat_pane.scroll_up(10);
                return EventResult::Handled;
            },
            KeyCode::PageDown => {
                self.chat_pane.scroll_down(10);
                return EventResult::Handled;
            },
            _ => {},
        }
        match self.input_pane.handle_key_event(key) {
            InputResult::NoAction => EventResult::Handled,
            InputResult::Submit(text) => self.handle_submit(text.as_str()),
        }
    }

    /// Handles a submitted text (see `submitted`).
    pub fn handle_submit(&mut self, text: &str) -> (res: EventResult)
        ensures
            res == EventResult::Handled,
            submitted(old(self)@, final(self)@, text@),
            final(self)@.input == old(self)@.input,
    {
        let cs = chars_of(text);
        let t = trim_chars(&cs);
        if t.len() > 0 {
            let ghost old_chat = self.chat_pane@;
            self.chat_pane.push(HistoryCell::UserMessage(string_of(&t)));
            assert(self.chat_pane@.history.drop_last() =~= old_chat.history);
            let ghost old_out = self.outbox@;
            self.outbox.push(UnifiedEvent::UI(UIEvent::SendMessage(string_of(&t))));
            assert(self.outbox@.drop_last() =~= old_out);
            self.state.clear_input();
        }
        EventResult::Handled
    }

    /// Handles any event of the application.
    pub fn handle_unified_event(&mut self, event: UnifiedEvent)
        ensures
            match event {
                UnifiedEvent::Chat(e) => chat_step(old(self)@, final(self)@, e),
                UnifiedEvent::UI(u) => ui_step(old(self)@, final(self)@, u),
                UnifiedEvent::Terminal(_) => final(self)@ == old(self)@,
            },
    {
        match event {
            UnifiedEvent::Chat(e) => self.handle_chat_event(e),
            UnifiedEvent::UI(u) => self.handle_ui_event(&u),
            UnifiedEvent::Terminal(_) => {},
        }
    }

    /// Handles a user-interface event (see `ui_step`).
    pub fn handle_ui_event(&mut self, event: &UIEvent)
        ensures
            ui_step(old(self)@, final(self)@, *event),
    {
        match event {
            UIEvent::SendMessage(_) => {},
            UIEvent::Exit => {
                self.state.should_exit = true;
            },
            UIEvent::ScrollUp(n) => {
                self.chat_pane.scroll_up(*n as usize);
            },
            UIEvent::ScrollDown(n) => {
                self.chat_pane.scroll_down(*n as usize);
            },
        }
    }

    /// Adds the cell of `cell` to the chat.
    fn push_cell(&mut self, cell: HistoryCell)
        ensures
            pushed_cell(old(self)@.chat, final(self)@.chat, cell_view(cell)),
            final(self)@.state == old(self)@.state,
            final(self)@.input == old(self)@.input,
            final(self)@.outbox == old(self)@.outbox,
    {
        let ghost old_chat = self.chat_pane@;
        self.chat_pane.push(cell);
        assert(self.chat_pane@.history.drop_last() =~= old_chat.history);
    }

    /// Handles a chat event (see `chat_step`).
    pub fn handle_chat_event(&mut self, event: ChatEvent)
        ensures
            chat_step(old(self)@, final(self)@, event),
    {
        match event {
            ChatEvent::Text(text) => {
                self.push_cell(HistoryCell::AssistantMessage(text));
            },
            ChatEvent::Reasoning(content) => {
                self.push_cell(HistoryCell::Reasoning(content));
            },
            ChatEvent::ReasoningDelta(content) => {
                self.push_cell(HistoryCell::Reasoning(content));
            },
            ChatEvent::ToolCall { arguments } => {
                let message = ChatMessage::parse_tool_call(arguments.as_str());
                let command = match message {
                    ChatMessage::ToolCall { command } => command,
                    _ => arguments,
                };
                self.push_cell(HistoryCell::ToolCall { command });
            },
            ChatEvent::ToolResult { content, structured } => {
                let message = ChatMessage::parse_tool_result(content.as_str(), &structured);
                match message {
                    ChatMessage::ToolResult { stdout, stderr, exit_code } => {
                        self.push_cell(HistoryCell::ToolResult { stdout, stderr, exit_code });
                    },
                    ChatMessage::Assistant(text) => {
                        self.push_cell(HistoryCell::AssistantMessage(text));
                    },
                    _ => {},
                }
            },
            _ => {},
        }
    }
}

impl Default for App {
    fn default() -> (res: Self)
        ensures
            initial_state(res@.state),
            res@.chat.history.len() == 0,
            res@.chat.scroll_offset == 0,
            res@.input.text.len() == 0,
            res@.input.pos == 0,
            res@.outbox.len() == 0,
    {
        App::new()
    }
}

/// A message that submitting sends is not blank, and neither begins nor
/// ends with whitespace.
pub proof fn law_sent_message_trimmed(old: AppView, new: AppView, text: Seq<char>)
    requires
        submitted(old, new, text),
        new.outbox.len() > old.outbox.len(),
    ensures
        new.outbox.last() matches UnifiedEvent::UI(UIEvent::SendMessage(s)) && s@.len() > 0
            && !is_ws(s@[0]) && !is_ws(s@.last()),
{
    law_trimmed_edges(text);
}

} // verus!
