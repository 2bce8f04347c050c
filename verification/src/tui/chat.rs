//! The chat pane: chat history laid out as display lines, with scrolling.
//!
//! Code blocks in assistant messages are kept as blocks; the renderer
//! highlights each block and draws one line per line of its code.
use vstd::prelude::*;

use crate::events::message::MessageView;
use crate::render::{int_text, push_int, push_nat};
use crate::text::{
    begins_with, chars_of, has_piece, lines, push_chars, slice_chars, split_lines, string_of,
    views_match,
};

verus! {

/// A single cell of the chat history.
#[derive(Debug, Clone)]
pub enum HistoryCell {
    /// A message from the user.
    UserMessage(String),
    /// A message from the assistant.
    AssistantMessage(String),
    /// Reasoning content from the assistant.
    Reasoning(String),
    /// A tool call with its command.
    ToolCall {
        /// The command being called.
        command: String,
    },
    /// A tool execution result.
    ToolResult {
        /// Standard output.
        stdout: String,
        /// Standard error.
        stderr: String,
        /// Exit code.
        exit_code: i64,
    },
}

/// The style of a span of text.
#[derive(Debug, Clone, Copy, PartialEq, Eq)]
pub enum SpanStyle {
    /// Unstyled text.
    Plain,
    /// The `[User] ` label: cyan, bold.
    UserLabel,
    /// The `[Thinking] ` label: yellow.
    ThinkingLabel,
    /// The `[Bash] ` label: magenta.
    BashLabel,
    /// The `Output:` header: green.
    OutputHeader,
    /// The `Error:` header and the exit code: red.
    ErrorHeader,
}

/// A span of text with its style.
#[derive(Debug, Clone)]
pub struct Span {
    pub text: String,
    pub style: SpanStyle,
}

/// A line of the chat pane, or a code block that the renderer highlights
/// and shows as one line per line of its code.
#[derive(Debug, Clone)]
pub enum DisplayLine {
    /// A line made of spans.
    Spans(Vec<Span>),
    /// A code block in the given language.
    Code {
        language: Option<String>,
        code: String,
    },
}

/// What a display line shows.
pub enum LineView {
    Spans(Seq<(Seq<char>, SpanStyle)>),
    Code(Option<Seq<char>>, Seq<char>),
}

/// The view of an optional string.
pub open spec fn opt_view(o: Option<String>) -> Option<Seq<char>> {
    match o {
        Some(s) => Some(s@),
        None => None,
    }
}

/// The view of a span.
pub open spec fn span_view(s: Span) -> (Seq<char>, SpanStyle) {
    (s.text@, s.style)
}

/// The view of a display line.
pub open spec fn line_view(l: DisplayLine) -> LineView {
    match l {
        DisplayLine::Spans(spans) => LineView::Spans(spans@.map_values(|s: Span| span_view(s))),
        DisplayLine::Code { language, code } => LineView::Code(opt_view(language), code@),
    }
}

/// The views of display lines.
pub open spec fn lines_view(v: Seq<DisplayLine>) -> Seq<LineView> {
    v.map_values(|l: DisplayLine| line_view(l))
}

/// The blank line that ends each cell.
pub open spec fn blank() -> LineView {
    LineView::Spans(seq![])
}

/// A line of one plain span.
pub open spec fn plain(t: Seq<char>) -> LineView {
    LineView::Spans(seq![(t, SpanStyle::Plain)])
}

/// A labelled line followed by the blank line.
pub open spec fn labelled(label: Seq<char>, style: SpanStyle, t: Seq<char>) -> Seq<LineView> {
    seq![LineView::Spans(seq![(label, style), (t, SpanStyle::Plain)]), blank()]
}

/// The state of the layout of a message while its lines are read.
pub struct MessageLayout {
    pub out: Seq<LineView>,
    pub in_code: bool,
    pub language: Option<Seq<char>>,
    pub code: Seq<char>,
}

/// Reads one line of a message: a line that starts with three backticks
/// opens a code block (with the language that follows them, if any) or
/// closes the open one; inside a block, lines gather into its code;
/// outside, each line is a plain line.
pub open spec fn layout_step(st: MessageLayout, line: Seq<char>) -> MessageLayout {
    if begins_with(line, "```"@) {
        if st.in_code {
            MessageLayout {
                out: st.out.push(LineView::Code(st.language, st.code)),
                in_code: false,
                language: None,
                code: seq![],
            }
        } else {
            let lang = line.skip("```"@.len() as int);
            MessageLayout {
                out: st.out,
                in_code: true,
                language: if lang.len() > 0 {
                    Some(lang)
                } else {
                    None
                },
                code: st.code,
            }
        }
    } else if st.in_code {
        MessageLayout { code: st.code + line + seq!['\n'], ..st }
    } else {
        MessageLayout { out: st.out.push(plain(line)), ..st }
    }
}

/// The layout after reading the lines `ls`.
pub open spec fn layout_lines(ls: Seq<Seq<char>>) -> MessageLayout
    decreases ls.len(),
{
    if ls.len() == 0 {
        MessageLayout { out: seq![], in_code: false, language: None, code: seq![] }
    } else {
        layout_step(layout_lines(ls.drop_last()), ls.last())
    }
}

/// The display lines of an assistant message: an unclosed code block with
/// code is shown too, and a blank line ends the message.
pub open spec fn message_lines(text: Seq<char>) -> Seq<LineView> {
    let st = layout_lines(lines(text));
    let out = if st.in_code && st.code.len() > 0 {
        st.out.push(LineView::Code(st.language, st.code))
    } else {
        st.out
    };
    out.push(blank())
}

/// The lines of one output stream of a tool result: a header, the first
/// five lines indented, and a count of the lines left out.
pub open spec fn stream_lines(header: Seq<char>, style: SpanStyle, text: Seq<char>) -> Seq<LineView> {
    if text.len() == 0 {
        seq![]
    } else {
        let ls = lines(text);
        let shown = if ls.len() > 5 {
            ls.take(5)
        } else {
            ls
        };
        seq![LineView::Spans(seq![(header, style)])] + shown.map_values(
            |l: Seq<char>| LineView::Spans(seq![("  "@, SpanStyle::Plain), (l, SpanStyle::Plain)]),
        ) + if ls.len() > 5 {
            seq![plain("  ... ("@ + int_text(ls.len() - 5) + " more lines)"@)]
        } else {
            seq![]
        }
    }
}

/// The display lines of a tool result.
pub open spec fn tool_result_lines(stdout: Seq<char>, stderr: Seq<char>, exit_code: int) -> Seq<
    LineView,
> {
    stream_lines("Output:"@, SpanStyle::OutputHeader, stdout) + stream_lines(
        "Error:"@,
        SpanStyle::ErrorHeader,
        stderr,
    ) + if exit_code != 0 {
        seq![LineView::Spans(seq![("Exit code: "@ + int_text(exit_code), SpanStyle::ErrorHeader)])]
    } else {
        seq![]
    } + seq![blank()]
}

/// The display lines of a history cell.
pub open spec fn cell_lines(cell: HistoryCell) -> Seq<LineView> {
    match cell {
        HistoryCell::UserMessage(t) => labelled("[User] "@, SpanStyle::UserLabel, t@),
        HistoryCell::AssistantMessage(t) => message_lines(t@),
        HistoryCell::Reasoning(t) => labelled("[Thinking] "@, SpanStyle::ThinkingLabel, t@),
        HistoryCell::ToolCall { command } => labelled("[Bash] "@, SpanStyle::BashLabel, command@),
        HistoryCell::ToolResult { stdout, stderr, exit_code } => tool_result_lines(
            stdout@,
            stderr@,
            exit_code as int,
        ),
    }
}

/// The number of terminal lines that a display line takes.
pub open spec fn rendered_count(l: LineView) -> nat {
    match l {
        LineView::Spans(_) => 1,
        LineView::Code(_, code) => lines(code).len(),
    }
}

/// The number of terminal lines that display lines take.
pub open spec fn total_rendered(ls: Seq<LineView>) -> nat
    decreases ls.len(),
{
    if ls.len() == 0 {
        0
    } else {
        total_rendered(ls.drop_last()) + rendered_count(ls.last())
    }
}

/// The display lines of a history, cell after cell.
pub open spec fn history_lines(h: Seq<HistoryCell>) -> Seq<LineView>
    decreases h.len(),
{
    if h.len() == 0 {
        seq![]
    } else {
        history_lines(h.drop_last()) + cell_lines(h.last())
    }
}

/// The range of rendered lines shown in a pane of `height` lines, scrolled
/// `scroll` lines up from the bottom: the scroll stops at the first line.
pub open spec fn visible(total: int, scroll: int, height: int) -> (int, int) {
    if total == 0 {
        (0, 0)
    } else {
        let s = if scroll < total - 1 {
            scroll
        } else {
            total - 1
        };
        let end = total - s;
        let start = end - if height < end {
            height
        } else {
            end
        };
        (start, end)
    }
}

fn span(text: String, style: SpanStyle) -> (res: Span)
    ensures
        span_view(res) == (text@, style),
{
    Span { text, style }
}

fn blank_line() -> (res: DisplayLine)
    ensures
        line_view(res) == blank(),
{
    let v: Vec<Span> = Vec::new();
    let res = DisplayLine::Spans(v);
    assert(v@.map_values(|s: Span| span_view(s)) =~= seq![]);
    res
}

fn one_span(text: String, style: SpanStyle) -> (res: DisplayLine)
    ensures
        line_view(res) == LineView::Spans(seq![(text@, style)]),
{
    let mut v: Vec<Span> = Vec::new();
    v.push(span(text, style));
    let res = DisplayLine::Spans(v);
    assert(v@.map_values(|s: Span| span_view(s)) =~= seq![(text@, style)]);
    res
}

fn two_spans(a: String, sa: SpanStyle, b: String, sb: SpanStyle) -> (res: DisplayLine)
    ensures
        line_view(res) == LineView::Spans(seq![(a@, sa), (b@, sb)]),
{
    let ghost av = a@;
    let ghost bv = b@;
    let mut v: Vec<Span> = Vec::new();
    v.push(span(a, sa));
    v.push(span(b, sb));
    let res = DisplayLine::Spans(v);
    assert(v@.map_values(|s: Span| span_view(s)) =~= seq![(av, sa), (bv, sb)]);
    res
}

/// Appends `l` to `out`.
fn push_line(out: &mut Vec<DisplayLine>, l: DisplayLine)
    ensures
        lines_view(final(out)@) == lines_view(old(out)@).push(line_view(l)),
{
    out.push(l);
    assert(lines_view(out@) =~= lines_view(old(out)@).push(line_view(l)));
}

/// Appends a labelled line and the blank line.
fn push_labelled(out: &mut Vec<DisplayLine>, label: &str, style: SpanStyle, t: &String)
    ensures
        lines_view(final(out)@) == lines_view(old(out)@) + labelled(label@, style, t@),
{
    push_line(out, two_spans(label.to_owned(), style, t.clone(), SpanStyle::Plain));
    push_line(out, blank_line());
    assert(lines_view(old(out)@).push(
        LineView::Spans(seq![(label@, style), (t@, SpanStyle::Plain)]),
    ).push(blank()) =~= lines_view(old(out)@) + labelled(label@, style, t@));
}

/// Appends the display lines of an assistant message.
pub fn push_message_lines(out: &mut Vec<DisplayLine>, text: &str)
    ensures
        lines_view(final(out)@) == lines_view(old(out)@) + message_lines(text@),
{
    let cs = chars_of(text);
    let ls = split_lines(&cs);
    let ghost lv = lines(text@);
    let ghost base = lines_view(out@);
    let mut in_code = false;
    let mut language: Option<String> = None;
    let mut code = String::new();
    let fence = chars_of("```");
    let mut i: usize = 0;
    while i < ls.len()
        invariant
            views_match(ls@, lv),
            lv == lines(text@),
            fence@ == "```"@,
            i <= ls@.len(),
            ({
                let st = layout_lines(lv.take(i as int));
                &&& lines_view(out@) == base + st.out
                &&& in_code == st.in_code
                &&& code@ == st.code
                &&& st.language == opt_view(language)
            }),
        decreases ls.len() - i,
    {
        let line = ls[i].as_slice();
        let ghost st = layout_lines(lv.take(i as int));
        assert(lv.take(i + 1).drop_last() =~= lv.take(i as int));
        assert(lv.take(i + 1).last() == line@);
        if crate::text::starts_with(line, &fence) {
            if in_code {
                let lang = language;
                let c = code;
                let ghost lang_v = opt_view(lang);
                push_line(out, DisplayLine::Code { language: lang, code: c });
                code = String::new();
                language = None;
                in_code = false;
                assert(base + st.out.push(LineView::Code(lang_v, st.code)) =~= lines_view(out@));
            } else {
                in_code = true;
                let rest = slice_chars(line, fence.len(), line.len());
                assert(rest@ =~= line@.skip("```"@.len() as int));
                if rest.len() > 0 {
                    language = Some(string_of(&rest));
                } else {
                    language = None;
                }
            }
        } else if in_code {
            push_chars(&mut code, line);
            crate::text::push_char(&mut code, '\n');
        } else {
            let ghost before = lines_view(out@);
            push_line(out, one_span(string_of(line), SpanStyle::Plain));
            assert(base + st.out.push(plain(line@)) =~= lines_view(out@));
        }
        i = i + 1;
    }
    assert(lv.take(lv.len() as int) =~= lv);
    if in_code && !code.as_str().is_empty() {
        let ghost st = layout_lines(lv);
        let ghost lang_v = opt_view(language);
        assert(code@.len() > 0);
        push_line(out, DisplayLine::Code { language, code });
        assert(base + st.out.push(LineView::Code(lang_v, st.code)) =~= lines_view(out@));
    }
    push_line(out, blank_line());
    assert(lines_view(out@) =~= lines_view(old(out)@) + message_lines(text@));
}

/// Appends the lines of one output stream of a tool result.
fn push_stream_lines(out: &mut Vec<DisplayLine>, header: &str, style: SpanStyle, text: &str)
    ensures
        lines_view(final(out)@) == lines_view(old(out)@) + stream_lines(header@, style, text@),
{
    if text.is_empty() {
        assert(lines_view(old(out)@) + seq![] =~= lines_view(old(out)@));
        return;
    }
    let cs = chars_of(text);
    let ls = split_lines(&cs);
    let ghost lv = lines(text@);
    push_line(out, one_span(header.to_owned(), style));
    let ghost base = lines_view(out@);
    let shown = if ls.len() > 5 {
        5
    } else {
        ls.len()
    };
    let ghost f = |l: Seq<char>| LineView::Spans(seq![("  "@, SpanStyle::Plain), (l, SpanStyle::Plain)]);
    let mut i: usize = 0;
    while i < shown
        invariant
            views_match(ls@, lv),
            lv == lines(text@),
            shown <= ls@.len(),
            shown == (if ls@.len() > 5 { 5 } else { ls@.len() }),
            i <= shown,
            f == (|l: Seq<char>| LineView::Spans(seq![("  "@, SpanStyle::Plain), (l, SpanStyle::Plain)])),
            lines_view(out@) == base + lv.take(i as int).map_values(f),
        decreases shown - i,
    {
        push_line(out, two_spans("  ".to_owned(), SpanStyle::Plain, string_of(ls[i].as_slice()), SpanStyle::Plain));
        assert(lv.take(i + 1).map_values(f) =~= lv.take(i as int).map_values(f).push(f(lv[i as int])));
        assert(base + lv.take(i + 1).map_values(f) =~= (base + lv.take(i as int).map_values(f)).push(f(lv[i as int])));
        i = i + 1;
    }
    let ghost shown_v = if lv.len() > 5 { lv.take(5) } else { lv };
    assert(lv.take(shown as int) =~= shown_v);
    if ls.len() > 5 {
        let mut t = "  ... (".to_owned();
        let omitted = ls.len() - 5;
        push_nat(&mut t, omitted as u64);
        t.append(" more lines)");
        assert(t@ == "  ... ("@ + int_text(lv.len() - 5) + " more lines)"@);
        push_line(out, one_span(t, SpanStyle::Plain));
    }
    assert(lines_view(out@) =~= lines_view(old(out)@) + stream_lines(header@, style, text@));
}

/// Appends the display lines of a tool result.
pub fn push_tool_result_lines(out: &mut Vec<DisplayLine>, stdout: &str, stderr: &str, exit_code: i64)
    ensures
        lines_view(final(out)@) == lines_view(old(out)@) + tool_result_lines(stdout@, stderr@, exit_code as int),
{
    push_stream_lines(out, "Output:", SpanStyle::OutputHeader, stdout);
    push_stream_lines(out, "Error:", SpanStyle::ErrorHeader, stderr);
    let ghost mid = lines_view(out@);
    if exit_code != 0 {
        let mut t = "Exit code: ".to_owned();
        push_int(&mut t, exit_code);
        push_line(out, one_span(t, SpanStyle::ErrorHeader));
    }
    push_line(out, blank_line());
    assert(lines_view(out@) =~= lines_view(old(out)@) + tool_result_lines(stdout@, stderr@, exit_code as int));
}

/// Appends the display lines of a history cell.
pub fn push_cell_lines(out: &mut Vec<DisplayLine>, cell: &HistoryCell)
    ensures
        lines_view(final(out)@) == lines_view(old(out)@) + cell_lines(*cell),
{
    match cell {
        HistoryCell::UserMessage(t) => push_labelled(out, "[User] ", SpanStyle::UserLabel, t),
        HistoryCell::AssistantMessage(t) => push_message_lines(out, t.as_str()),
        HistoryCell::Reasoning(t) => push_labelled(out, "[Thinking] ", SpanStyle::ThinkingLabel, t),
        HistoryCell::ToolCall { command } => push_labelled(out, "[Bash] ", SpanStyle::BashLabel, command),
        HistoryCell::ToolResult { stdout, stderr, exit_code } => push_tool_result_lines(
            out,
            stdout.as_str(),
            stderr.as_str(),
            *exit_code,
        ),
    }
}

impl HistoryCell {
    /// The display lines of this cell.
    pub fn to_lines(&self) -> (res: Vec<DisplayLine>)
        ensures
            lines_view(res@) == cell_lines(*self),
    {
        let mut out: Vec<DisplayLine> = Vec::new();
        push_cell_lines(&mut out, self);
        assert(lines_view(Seq::<DisplayLine>::empty()) + cell_lines(*self) =~= cell_lines(*self));
        out
    }
}

/// The number of terminal lines of a display line.
fn line_count(l: &DisplayLine) -> (res: usize)
    ensures
        res == rendered_count(line_view(*l)),
{
    match l {
        DisplayLine::Spans(_) => 1,
        DisplayLine::Code { code, .. } => {
            let cs = chars_of(code.as_str());
            split_lines(&cs).len()
        },
    }
}

/// The range of rendered lines shown (see `visible`).
pub fn visible_range_of(total: usize, scroll: usize, height: u16) -> (res: (usize, usize))
    ensures
        (res.0 as int, res.1 as int) == visible(total as int, scroll as int, height as int),
{
    if total == 0 {
        return (0, 0);
    }
    let s = if scroll < total - 1 {
        scroll
    } else {
        total - 1
    };
    let end = total - s;
    let h = height as usize;
    let start = end - if h < end {
        h
    } else {
        end
    };
    (start, end)
}

/// The chat display pane.
#[derive(Debug)]
pub struct ChatPane {
    /// The history of messages.
    history: Vec<HistoryCell>,
    /// Vertical scroll offset, in lines from the bottom.
    scroll_offset: usize,
}

/// What a chat pane holds: its history and its scroll offset.
pub struct ChatPaneView {
    pub history: Seq<HistoryCell>,
    pub scroll_offset: nat,
}

/// The pane after `cell` is added: scrolled to the bottom.
pub open spec fn pushed(v: ChatPaneView, cell: HistoryCell) -> ChatPaneView {
    ChatPaneView { history: v.history.push(cell), scroll_offset: 0 }
}

/// The pane scrolled up by `lines`, the offset saturating at `usize::MAX`.
pub open spec fn scrolled_up(v: ChatPaneView, lines: int) -> ChatPaneView {
    ChatPaneView {
        history: v.history,
        scroll_offset: if v.scroll_offset + lines > usize::MAX {
            usize::MAX as nat
        } else {
            (v.scroll_offset + lines) as nat
        },
    }
}

/// The pane scrolled down by `lines`, stopping at the bottom.
pub open spec fn scrolled_down(v: ChatPaneView, lines: int) -> ChatPaneView {
    ChatPaneView {
        history: v.history,
        scroll_offset: if v.scroll_offset < lines {
            0
        } else {
            (v.scroll_offset - lines) as nat
        },
    }
}

/// What a history cell shows, as the chat message it mirrors.
pub open spec fn cell_view(c: HistoryCell) -> MessageView {
    match c {
        HistoryCell::UserMessage(t) => MessageView::User(t@),
        HistoryCell::AssistantMessage(t) => MessageView::Assistant(t@),
        HistoryCell::Reasoning(t) => MessageView::Reasoning(t@),
        HistoryCell::ToolCall { command } => MessageView::ToolCall(command@),
        HistoryCell::ToolResult { stdout, stderr, exit_code } => MessageView::ToolResult(
            stdout@,
            stderr@,
            exit_code as int,
        ),
    }
}

impl View for ChatPane {
    type V = ChatPaneView;

    closed spec fn view(&self) -> ChatPaneView {
        ChatPaneView { history: self.history@, scroll_offset: self.scroll_offset as nat }
    }
}

impl ChatPane {
    /// An empty pane.
    pub fn new() -> (res: Self)
        ensures
            res@.history.len() == 0,
            res@.scroll_offset == 0,
    {
        ChatPane { history: Vec::new(), scroll_offset: 0 }
    }

    /// Adds a cell to the chat and scrolls to the bottom.
    pub fn push(&mut self, cell: HistoryCell)
        ensures
            final(self)@ == pushed(old(self)@, cell),
    {
        self.history.push(cell);
        self.scroll_offset = 0;
    }

    /// Scrolls up by `lines` lines, saturating.
    pub fn scroll_up(&mut self, lines: usize)
        ensures
            final(self)@ == scrolled_up(old(self)@, lines as int),
    {
        self.scroll_offset = self.scroll_offset.saturating_add(lines);
    }

    /// Scrolls down by `lines` lines, stopping at the bottom.
    pub fn scroll_down(&mut self, lines: usize)
        ensures
            final(self)@ == scrolled_down(old(self)@, lines as int),
    {
        self.scroll_offset = self.scroll_offset.saturating_sub(lines);
    }

    /// The number of cells in the history.
    pub fn message_count(&self) -> (res: usize)
        ensures
            res == self@.history.len(),
    {
        self.history.len()
    }

    /// The scroll offset, in lines from the bottom.
    pub fn scroll_offset(&self) -> (res: usize)
        ensures
            res == self@.scroll_offset,
    {
        self.scroll_offset
    }

    /// All display lines, cell after cell.
    pub fn all_lines(&self) -> (res: Vec<DisplayLine>)
        ensures
            lines_view(res@) == history_lines(self@.history),
    {
        let mut out: Vec<DisplayLine> = Vec::new();
        let mut i: usize = 0;
        while i < self.history.len()
            invariant
                i <= self.history@.len(),
                lines_view(out@) == history_lines(self.history@.take(i as int)),
            decreases self.history.len() - i,
        {
            push_cell_lines(&mut out, &self.history[i]);
            assert(self.history@.take(i + 1).drop_last() =~= self.history@.take(i as int));
            i = i + 1;
        }
        assert(self.history@.take(self.history@.len() as int) =~= self.history@);
        out
    }

    /// The range of rendered lines shown in a pane `area_height` lines high
    /// (see `visible`); a count beyond `usize::MAX` is taken as `usize::MAX`.
    pub fn visible_range(&self, area_height: u16) -> (res: (usize, usize))
        ensures
            ({
                let t = total_rendered(history_lines(self@.history));
                let total = if t > usize::MAX { usize::MAX as int } else { t as int };
                (res.0 as int, res.1 as int) == visible(total, self@.scroll_offset as int, area_height as int)
            }),
    {
        let all = self.all_lines();
        let ghost lv = lines_view(all@);
        let mut total: usize = 0;
        let mut i: usize = 0;
        while i < all.len()
            invariant
                i <= all@.len(),
                lv == lines_view(all@),
                total as int == if total_rendered(lv.take(i as int)) > usize::MAX {
                    usize::MAX as int
                } else {
                    total_rendered(lv.take(i as int)) as int
                },
            decreases all.len() - i,
        {
            let c = line_count(&all[i]);
            assert(lv.take(i + 1).drop_last() =~= lv.take(i as int));
            assert(lv.take(i + 1).last() == line_view(all@[i as int]));
            total = total.saturating_add(c);
            i = i + 1;
        }
        assert(lv.take(all@.len() as int) =~= lv);
        visible_range_of(total, self.scroll_offset, area_height)
    }
}

impl Default for ChatPane {
    fn default() -> (res: Self)
        ensures
            res@.history.len() == 0,
            res@.scroll_offset == 0,
    {
        ChatPane::new()
    }
}

/// Scrolling down by as many lines as were scrolled up returns to where the
/// pane was, when the offset did not saturate.
pub proof fn law_scroll_down_undoes_scroll_up(v: ChatPaneView, lines: int)
    requires
        0 <= lines,
        v.scroll_offset + lines <= usize::MAX,
    ensures
        scrolled_down(scrolled_up(v, lines), lines) == v,
{
}

/// The visible range lies within the lines, holds at most `height` of them,
/// and without scrolling it ends at the last line.
pub proof fn law_visible_range_bounds(total: int, scroll: int, height: int)
    requires
        0 <= total,
        0 <= scroll,
        0 <= height,
    ensures
        0 <= visible(total, scroll, height).0 <= visible(total, scroll, height).1 <= total,
        visible(total, scroll, height).1 - visible(total, scroll, height).0 <= height,
        total > 0 ==> visible(total, scroll, height).1 >= 1,
        scroll == 0 ==> visible(total, scroll, height).1 == total,
{
}

/// The display line `d` shows the message line `l`: as a plain line of its
/// own, or within the code of a code block.
pub open spec fn line_holds(d: LineView, l: Seq<char>) -> bool {
    ||| d == LineView::Spans(seq![(l, SpanStyle::Plain)])
    ||| d matches LineView::Code(_, code) && has_piece(code, l + seq!['\n'])
}

/// Some display line of `out` shows the message line `l`.
pub open spec fn shows_line(out: Seq<LineView>, l: Seq<char>) -> bool {
    exists|j: int| 0 <= j < out.len() && #[trigger] line_holds(out[j], l)
}

/// A line shown stays shown when a display line is added after it.
proof fn lemma_shows_line_push(out: Seq<LineView>, x: LineView, l: Seq<char>)
    requires
        shows_line(out, l),
    ensures
        shows_line(out.push(x), l),
{
    let j = choose|j: int| 0 <= j < out.len() && #[trigger] line_holds(out[j], l);
    assert(out.push(x)[j] == out[j]);
    assert(line_holds(out.push(x)[j], l));
}

/// A piece of `s` is a piece of `s` followed by more.
proof fn lemma_piece_extend(s: Seq<char>, t: Seq<char>, more: Seq<char>)
    requires
        has_piece(s, t),
    ensures
        has_piece(s + more, t),
{
    let k = choose|k: int| 0 <= k && k + t.len() <= s.len() && #[trigger] s.subrange(k, k + t.len()) == t;
    assert((s + more).subrange(k, k + t.len()) =~= s.subrange(k, k + t.len()));
}

/// While a message is laid out, every line read that is not a fence is
/// shown by a display line already, or waits in the code of the open block.
proof fn lemma_layout_keeps_lines(ls: Seq<Seq<char>>)
    ensures
        forall|j: int|
            0 <= j < ls.len() && !begins_with(#[trigger] ls[j], "```"@) ==> shows_line(
                layout_lines(ls).out,
                ls[j],
            ) || (layout_lines(ls).in_code && has_piece(layout_lines(ls).code, ls[j] + seq!['\n'])),
    decreases ls.len(),
{
    if ls.len() > 0 {
        let pre = ls.drop_last();
        let last = ls.last();
        lemma_layout_keeps_lines(pre);
        let st0 = layout_lines(pre);
        let st = layout_lines(ls);
        assert(st == layout_step(st0, last));
        assert forall|j: int|
            0 <= j < ls.len() && !begins_with(#[trigger] ls[j], "```"@) implies shows_line(
                st.out,
                ls[j],
            ) || (st.in_code && has_piece(st.code, ls[j] + seq!['\n'])) by {
            let l = ls[j];
            if j < ls.len() - 1 {
                assert(pre[j] == l);
                if shows_line(st0.out, l) {
                    if st.out != st0.out {
                        if begins_with(last, "```"@) {
                            lemma_shows_line_push(st0.out, LineView::Code(st0.language, st0.code), l);
                        } else {
                            lemma_shows_line_push(st0.out, LineView::Spans(seq![(last, SpanStyle::Plain)]), l);
                        }
                    }
                } else {
                    assert(st0.in_code && has_piece(st0.code, l + seq!['\n']));
                    if begins_with(last, "```"@) {
                        let k = st0.out.len() as int;
                        assert(st.out[k] == LineView::Code(st0.language, st0.code));
                        assert(line_holds(st.out[k], l));
                    } else {
                        lemma_piece_extend(st0.code, l + seq!['\n'], last + seq!['\n']);
                        assert(st.code =~= st0.code + (last + seq!['\n']));
                    }
                }
            } else {
                assert(l == last);
                if st0.in_code {
                    let t = last + seq!['\n'];
                    assert(st.code =~= st0.code + t);
                    assert(st.code.subrange(st0.code.len() as int, (st0.code.len() + t.len()) as int) =~= t);
                } else {
                    let k = st0.out.len() as int;
                    assert(st.out[k] == LineView::Spans(seq![(last, SpanStyle::Plain)]));
                    assert(line_holds(st.out[k], l));
                }
            }
        }
    }
}

/// No text of an assistant message is lost when it is laid out: every line
/// that is not a code fence is shown, as a plain line or within the code of
/// a code block, a block left open included; a blank line ends the message.
pub proof fn law_message_shows_every_line(text: Seq<char>)
    ensures
        forall|j: int|
            0 <= j < lines(text).len() && !begins_with(#[trigger] lines(text)[j], "```"@) ==> shows_line(
                message_lines(text),
                lines(text)[j],
            ),
        message_lines(text).last() == LineView::Spans(seq![]),
{
    let ls = lines(text);
    lemma_layout_keeps_lines(ls);
    let st = layout_lines(ls);
    let body = if st.in_code && st.code.len() > 0 {
        st.out.push(LineView::Code(st.language, st.code))
    } else {
        st.out
    };
    assert(message_lines(text) == body.push(blank()));
    assert forall|j: int|
        0 <= j < ls.len() && !begins_with(#[trigger] ls[j], "```"@) implies shows_line(
            message_lines(text),
            ls[j],
        ) by {
        let l = ls[j];
        if shows_line(st.out, l) {
            if body != st.out {
                lemma_shows_line_push(st.out, LineView::Code(st.language, st.code), l);
            }
            lemma_shows_line_push(body, blank(), l);
        } else {
            assert(st.in_code && has_piece(st.code, l + seq!['\n']));
            assert(st.code.len() > 0);
            let k = st.out.len() as int;
            assert(body[k] == LineView::Code(st.language, st.code));
            assert(line_holds(body[k], l));
            lemma_shows_line_push(body, blank(), l);
        }
    }
}

} // verus!
