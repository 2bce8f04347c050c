//! The command-line renderer: standard output with ANSI colors.
use vstd::prelude::*;

use crate::events::ChatEvent;
use crate::render::{command_result_text, display_event, event_display, TextColor};

verus! {

/// The ANSI escape sequence of a color.
pub open spec fn ansi(color: TextColor) -> Seq<char> {
    match color {
        TextColor::Cyan => "\x1b[36m"@,
        TextColor::Yellow => "\x1b[33m"@,
        TextColor::Green => "\x1b[32m"@,
        TextColor::Grey => "\x1b[90m"@,
    }
}

/// `text` in `color`: the color's escape sequence, the text, the reset sequence.
pub open spec fn colored(text: Seq<char>, color: TextColor) -> Seq<char> {
    ansi(color) + text + "\x1b[0m"@
}

/// What the renderer writes for an event: the event's text, in its color
/// when the renderer uses colors.
pub open spec fn cli_event_text(event: ChatEvent, use_color: bool) -> Seq<char> {
    match event_display(event) {
        None => seq![],
        Some((t, None)) => t,
        Some((t, Some(c))) => if use_color {
            colored(t, c)
        } else {
            t
        },
    }
}

/// What the renderer writes for a streamed chunk: a thinking chunk in cyan
/// when the renderer uses colors.
pub open spec fn cli_chunk_text(chunk: Seq<char>, is_thinking: bool, use_color: bool) -> Seq<char> {
    if is_thinking && use_color {
        colored(chunk, TextColor::Cyan)
    } else {
        chunk
    }
}

fn ansi_code(color: TextColor) -> (res: &'static str)
    ensures
        res@ == ansi(color),
{
    match color {
        TextColor::Cyan => "\x1b[36m",
        TextColor::Yellow => "\x1b[33m",
        TextColor::Green => "\x1b[32m",
        TextColor::Grey => "\x1b[90m",
    }
}

/// `text` in `color`.
pub fn queue_colored(text: &str, color: TextColor) -> (res: String)
    ensures
        res@ == colored(text@, color),
{
    let mut res = ansi_code(color).to_owned();
    res.append(text);
    res.append("\x1b[0m");
    res
}

/// CLI renderer that writes to standard output with ANSI colors.
#[derive(Debug, Clone, Copy)]
pub struct CliRenderer {
    use_color: bool,
}

impl CliRenderer {
    /// Creates a CLI renderer.
    pub fn new() -> (res: Self)
        ensures
            res.colors(),
    {
        CliRenderer { use_color: true }
    }

    /// Creates a CLI renderer without colors.
    pub fn no_color() -> (res: Self)
        ensures
            !res.colors(),
    {
        CliRenderer { use_color: false }
    }

    /// Whether the renderer was made with colors.
    pub closed spec fn colors(&self) -> bool {
        self.use_color
    }

    /// `text` in `color`.
    pub fn queue_colored(text: &str, color: TextColor) -> (res: String)
        ensures
            res@ == colored(text@, color),
    {
        queue_colored(text, color)
    }

    /// `text` without color.
    pub fn queue_text(text: &str) -> (res: String)
        ensures
            res@ == text@,
    {
        text.to_owned()
    }

    /// Formats a command's result (see `render::format_command_result`).
    pub fn format_command_result(stdout: &str, stderr: &str, exit_code: i64) -> (res: String)
        ensures
            res@ == command_result_text(stdout@, stderr@, exit_code as int),
    {
        crate::render::format_command_result(stdout, stderr, exit_code)
    }

    /// What rendering `event` writes to standard output.
    pub fn render_event(&self, event: &ChatEvent) -> (res: String)
        ensures
            res@ == cli_event_text(*event, self.colors()),
    {
        match display_event(event) {
            None => String::new(),
            Some(t) => match t.color {
                None => t.text,
                Some(c) => if self.use_color {
                    queue_colored(t.text.as_str(), c)
                } else {
                    t.text
                },
            },
        }
    }

    /// What rendering a streamed chunk writes to standard output.
    pub fn render_chunk(&self, chunk: &str, is_thinking: bool) -> (res: String)
        ensures
            res@ == cli_chunk_text(chunk@, is_thinking, self.colors()),
    {
        if is_thinking && self.use_color {
            queue_colored(chunk, TextColor::Cyan)
        } else {
            chunk.to_owned()
        }
    }
}

impl Default for CliRenderer {
    fn default() -> (res: Self)
        ensures
            res.colors(),
    {
        CliRenderer::new()
    }
}

} // verus!
