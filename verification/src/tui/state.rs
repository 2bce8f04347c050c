//! UI-only application state: input, scrolling and terminal size.
use vstd::prelude::*;

verus! {

/// Centralized UI-only application state.
#[derive(Debug, Clone)]
pub struct AppState {
    /// Current input text.
    pub input_text: String,
    /// Cursor position in the input (byte index).
    pub input_cursor: usize,
    /// Scroll offset of the chat pane (lines from the bottom).
    pub scroll_offset: usize,
    /// Whether the application should exit.
    pub should_exit: bool,
    /// Terminal width.
    pub terminal_width: u16,
    /// Terminal height.
    pub terminal_height: u16,
}

/// The state of a new application: empty input, no scrolling, an 80 by 24
/// terminal.
pub open spec fn initial_state(s: AppState) -> bool {
    &&& s.input_text@.len() == 0
    &&& s.input_cursor == 0
    &&& s.scroll_offset == 0
    &&& !s.should_exit
    &&& s.terminal_width == 80
    &&& s.terminal_height == 24
}

impl AppState {
    /// A new state: empty input, no scrolling, an 80 by 24 terminal.
    pub fn new() -> (res: Self)
        ensures
            res.input_text@.len() == 0,
            res.input_cursor == 0,
            res.scroll_offset == 0,
            !res.should_exit,
            res.terminal_width == 80,
            res.terminal_height == 24,
    {
        AppState {
            input_text: String::new(),
            input_cursor: 0,
            scroll_offset: 0,
            should_exit: false,
            terminal_width: 80,
            terminal_height: 24,
        }
    }

    /// Updates the terminal size.
    pub fn resize(&mut self, width: u16, height: u16)
        ensures
            final(self).terminal_width == width,
            final(self).terminal_height == height,
            final(self).input_text == old(self).input_text,
            final(self).input_cursor == old(self).input_cursor,
            final(self).scroll_offset == old(self).scroll_offset,
            final(self).should_exit == old(self).should_exit,
    {
        self.terminal_width = width;
        self.terminal_height = height;
    }

    /// Clears the input field.
    pub fn clear_input(&mut self)
        ensures
            final(self).input_text@.len() == 0,
            final(self).input_cursor == 0,
            final(self).scroll_offset == old(self).scroll_offset,
            final(self).should_exit == old(self).should_exit,
            final(self).terminal_width == old(self).terminal_width,
            final(self).terminal_height == old(self).terminal_height,
    {
        self.input_text = String::new();
        self.input_cursor = 0;
    }
}

impl Default for AppState {
    fn default() -> (res: Self)
        ensures
            res.input_text@.len() == 0,
            res.input_cursor == 0,
            res.scroll_offset == 0,
            !res.should_exit,
            res.terminal_width == 80,
            res.terminal_height == 24,
    {
        AppState::new()
    }
}

} // verus!
