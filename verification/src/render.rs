//! Output handling: what the command line shows for each chat event.
use vstd::prelude::*;

use crate::events::{ChatEvent, ToolOutput};
use crate::json::{json_str_field, json_string_field};
use crate::text::{chars_of, finishes_with, lines, prefixed, push_char, push_chars, split_lines, views_match};

verus! {

/// The decimal digit for `d` (`0 <= d < 10`).
pub open spec fn digit_char(d: int) -> char {
    seq!['0', '1', '2', '3', '4', '5', '6', '7', '8', '9'][d]
}

/// The decimal text of a natural number, without leading zeros.
pub open spec fn nat_text(n: nat) -> Seq<char>
    decreases n,
{
    if n < 10 {
        seq![digit_char(n as int)]
    } else {
        nat_text(n / 10) + seq![digit_char((n % 10) as int)]
    }
}

/// The decimal text of an integer, as `Display` writes it.
pub open spec fn int_text(i: int) -> Seq<char> {
    if i < 0 {
        seq!['-'] + nat_text((-i) as nat)
    } else {
        nat_text(i as nat)
    }
}

fn digit(d: u64) -> (c: char)
    requires
        d < 10,
    ensures
        c == digit_char(d as int),
{
    match d {
        0 => '0',
        1 => '1',
        2 => '2',
        3 => '3',
        4 => '4',
        5 => '5',
        6 => '6',
        7 => '7',
        8 => '8',
        _ => '9',
    }
}

/// Appends the decimal text of `n`.
pub(crate) fn push_nat(s: &mut String, n: u64)
    ensures
        final(s)@ == old(s)@ + nat_text(n as nat),
    decreases n,
{
    if n >= 10 {
        push_nat(s, n / 10);
    }
    push_char(s, digit(n % 10));
    proof {
        if n >= 10 {
            assert(old(s)@ + nat_text((n / 10) as nat) + seq![digit_char((n % 10) as int)]
                =~= old(s)@ + nat_text(n as nat));
        } else {
            assert(old(s)@.push(digit_char(n as int)) =~= old(s)@ + nat_text(n as nat));
        }
    }
}

/// Appends the decimal text of `i`.
pub fn push_int(s: &mut String, i: i64)
    ensures
        final(s)@ == old(s)@ + int_text(i as int),
{
    if i < 0 {
        push_char(s, '-');
        let m: u64 = (-(i + 1)) as u64 + 1;
        assert(m == -i);
        push_nat(s, m);
        assert(old(s)@.push('-') + nat_text(m as nat) =~= old(s)@ + int_text(i as int));
    } else {
        push_nat(s, i as u64);
    }
}

/// `ls` as indented lines: each line after two spaces and before a newline.
pub open spec fn indented(ls: Seq<Seq<char>>) -> Seq<char>
    decreases ls.len(),
{
    if ls.len() == 0 {
        seq![]
    } else {
        indented(ls.drop_last()) + "  "@ + ls.last() + "\n"@
    }
}

/// The section of one output stream: a header, the first five lines
/// indented, and a note when lines were left out; nothing for no lines.
pub open spec fn stream_section(header: Seq<char>, omitted: Seq<char>, text: Seq<char>) -> Seq<
    char,
> {
    let ls = lines(text);
    if ls.len() == 0 {
        seq![]
    } else {
        let shown = if ls.len() > 5 {
            ls.take(5)
        } else {
            ls
        };
        header + indented(shown) + if ls.len() > 5 {
            omitted
        } else {
            seq![]
        }
    }
}

/// The display of a command's result: the sections of standard output and
/// standard error, then the exit code unless it is zero.
pub open spec fn command_result_text(stdout: Seq<char>, stderr: Seq<char>, exit_code: int) -> Seq<
    char,
> {
    stream_section("输出:\n"@, "  ... (更多输出已省略)\n"@, stdout) + stream_section(
        "错误:\n"@,
        "  ... (更多错误已省略)\n"@,
        stderr,
    ) + if exit_code != 0 {
        "退出码: "@ + int_text(exit_code) + "\n"@
    } else {
        seq![]
    }
}

/// Appends the section of one stream.
fn push_section(out: &mut String, header: &str, omitted: &str, text: &str)
    ensures
        final(out)@ == old(out)@ + stream_section(header@, omitted@, text@),
{
    let cs = chars_of(text);
    let ls = split_lines(&cs);
    if ls.len() == 0 {
        assert(old(out)@ + seq![] =~= old(out)@);
        return;
    }
    let ghost lv = lines(text@);
    out.append(header);
    let shown = if ls.len() > 5 {
        5
    } else {
        ls.len()
    };
    let ghost start = out@;
    let mut i: usize = 0;
    while i < shown
        invariant
            views_match(ls@, lv),
            lv == lines(text@),
            shown <= ls@.len(),
            i <= shown,
            out@ == start + indented(lv.take(i as int)),
        decreases shown - i,
    {
        out.append("  ");
        push_chars(out, ls[i].as_slice());
        out.append("\n");
        proof {
            assert(lv.take(i + 1).drop_last() =~= lv.take(i as int));
            assert(lv.take(i + 1).last() == ls@[i as int]@);
            assert(start + indented(lv.take(i as int)) + "  "@ + ls@[i as int]@ + "\n"@
                =~= start + indented(lv.take(i + 1)));
        }
        i = i + 1;
    }
    if ls.len() > 5 {
        out.append(omitted);
    }
    proof {
        if lv.len() <= 5 {
            assert(lv.take(lv.len() as int) =~= lv);
        }
        let shown_v = if lv.len() > 5 {
            lv.take(5)
        } else {
            lv
        };
        let tail = if lv.len() > 5 {
            omitted@
        } else {
            seq![]
        };
        assert(old(out)@ + header@ + indented(shown_v) + tail =~= old(out)@ + stream_section(
            header@,
            omitted@,
            text@,
        ));
    }
}

/// Formats a command's result for display: the first five lines of standard
/// output and of standard error, and the exit code when it is not zero.
pub fn format_command_result(stdout: &str, stderr: &str, exit_code: i64) -> (res: String)
    ensures
        res@ == command_result_text(stdout@, stderr@, exit_code as int),
{
    let mut result = String::new();
    push_section(&mut result, "输出:\n", "  ... (更多输出已省略)\n", stdout);
    push_section(&mut result, "错误:\n", "  ... (更多错误已省略)\n", stderr);
    let ghost mid = result@;
    if exit_code != 0 {
        result.append("退出码: ");
        push_int(&mut result, exit_code);
        result.append("\n");
    }
    assert(result@ =~= command_result_text(stdout@, stderr@, exit_code as int));
    result
}

/// The colors that the command line uses.
#[derive(Debug, Clone, Copy, PartialEq, Eq)]
pub enum TextColor {
    Cyan,
    Yellow,
    Green,
    Grey,
}

/// A piece of output: its text and its color (`None`: the terminal's own).
#[derive(Debug, Clone)]
pub struct StyledText {
    pub text: String,
    pub color: Option<TextColor>,
}

/// What a `StyledText` shows.
pub open spec fn styled(t: StyledText) -> (Seq<char>, Option<TextColor>) {
    (t.text@, t.color)
}

/// The display of a tool result: the formatted command result when all three
/// structured fields are present, the raw content otherwise.
pub open spec fn tool_result_text(content: Seq<char>, structured: Option<ToolOutput>) -> Seq<char> {
    match structured {
        Some(d) => match (d.stdout, d.stderr, d.exit_code) {
            (Some(o), Some(e), Some(c)) => command_result_text(o@, e@, c as int),
            _ => "[工具结果] "@ + content + "\n"@,
        },
        None => "[工具结果] "@ + content + "\n"@,
    }
}

/// The display of a tool call: the `command` field of the JSON arguments,
/// or the arguments themselves.
pub open spec fn tool_call_text(arguments: Seq<char>) -> Seq<char> {
    match json_string_field(arguments, "command"@) {
        Some(c) => "[Bash] "@ + c,
        None => "[Bash] "@ + arguments,
    }
}

/// What the command line shows for an event; `None` for usage statistics.
pub open spec fn event_display(event: ChatEvent) -> Option<(Seq<char>, Option<TextColor>)> {
    match event {
        ChatEvent::Text(t) => Some((t@, None)),
        ChatEvent::Reasoning(c) => Some(("[思考] "@ + c@, Some(TextColor::Cyan))),
        ChatEvent::ReasoningDelta(c) => Some(("[思考] "@ + c@, Some(TextColor::Cyan))),
        ChatEvent::ToolCall { arguments } => Some((tool_call_text(arguments@), Some(TextColor::Yellow))),
        ChatEvent::ToolCallDelta(c) => Some(("[工具调用] "@ + c@, Some(TextColor::Yellow))),
        ChatEvent::ToolResult { content, structured } => Some(
            (tool_result_text(content@, structured), Some(TextColor::Green)),
        ),
        ChatEvent::Usage(_) => None,
        ChatEvent::Done => Some(("\n"@, None)),
    }
}

/// The text and color shown for an event (see `event_display`).
pub fn display_event(event: &ChatEvent) -> (res: Option<StyledText>)
    ensures
        match res {
            Some(t) => event_display(*event) == Some(styled(t)),
            None => event_display(*event) is None,
        },
{
    match event {
        ChatEvent::Text(t) => Some(StyledText { text: t.clone(), color: None }),
        ChatEvent::Reasoning(c) => Some(
            StyledText { text: prefixed("[思考] ", c.as_str()), color: Some(TextColor::Cyan) },
        ),
        ChatEvent::ReasoningDelta(c) => Some(
            StyledText { text: prefixed("[思考] ", c.as_str()), color: Some(TextColor::Cyan) },
        ),
        ChatEvent::ToolCall { arguments } => {
            let text = match json_str_field(arguments.as_str(), "command") {
                Some(c) => prefixed("[Bash] ", c.as_str()),
                None => prefixed("[Bash] ", arguments.as_str()),
            };
            Some(StyledText { text, color: Some(TextColor::Yellow) })
        },
        ChatEvent::ToolCallDelta(c) => Some(
            StyledText { text: prefixed("[工具调用] ", c.as_str()), color: Some(TextColor::Yellow) },
        ),
        ChatEvent::ToolResult { content, structured } => {
            let text = tool_result_display(content.as_str(), structured);
            Some(StyledText { text, color: Some(TextColor::Green) })
        },
        ChatEvent::Usage(_) => None,
        ChatEvent::Done => Some(StyledText { text: "\n".to_owned(), color: None }),
    }
}

/// The display of a tool result (see `tool_result_text`).
pub fn tool_result_display(content: &str, structured: &Option<ToolOutput>) -> (res: String)
    ensures
        res@ == tool_result_text(content@, *structured),
{
    if let Some(d) = structured {
        if let (Some(o), Some(e), Some(c)) = (&d.stdout, &d.stderr, d.exit_code) {
            return format_command_result(o.as_str(), e.as_str(), c);
        }
    }
    let mut res = "[工具结果] ".to_owned();
    res.append(content);
    res.append("\n");
    res
}

/// Handler for output rendering.
#[derive(Debug, Clone, Copy)]
pub struct OutputHandler {
    use_stdout: bool,
}

impl OutputHandler {
    /// Creates an `OutputHandler` that writes to standard output.
    pub fn new(_line_count: u16) -> (res: Self)
        ensures
            res.stdout_enabled(),
    {
        OutputHandler { use_stdout: true }
    }

    /// Whether output goes to standard output.
    pub closed spec fn stdout_enabled(&self) -> bool {
        self.use_stdout
    }

    /// Whether output goes to standard output.
    pub fn uses_stdout(&self) -> (res: bool)
        ensures
            res == self.stdout_enabled(),
    {
        self.use_stdout
    }

    /// Stops output to standard output.
    pub fn disable_stdout(&mut self)
        ensures
            !final(self).stdout_enabled(),
    {
        self.use_stdout = false;
    }

    /// Formats a command's result (see `format_command_result`).
    pub fn format_command_result(stdout: &str, stderr: &str, exit_code: i64) -> (res: String)
        ensures
            res@ == command_result_text(stdout@, stderr@, exit_code as int),
    {
        format_command_result(stdout, stderr, exit_code)
    }

    /// What the output callback writes for a streamed `text`: the text
    /// itself while output goes to standard output, nothing once it is
    /// disabled. (Only `disable_stdout` changes a handler, and only to turn
    /// output off; a copy keeps the setting.)
    pub fn callback_output(&self, text: &str) -> (res: Option<String>)
        ensures
            res is Some == self.stdout_enabled(),
            res matches Some(s) ==> s@ == text@,
    {
        if self.use_stdout {
            Some(text.to_owned())
        } else {
            None
        }
    }

    /// What handling `event` writes: nothing once standard output is
    /// disabled, otherwise the event's display.
    pub fn handle(&self, event: &ChatEvent) -> (res: Option<StyledText>)
        ensures
            !self.stdout_enabled() ==> res is None,
            self.stdout_enabled() ==> match res {
                Some(t) => event_display(*event) == Some(styled(t)),
                None => event_display(*event) is None,
            },
    {
        if !self.use_stdout {
            return None;
        }
        display_event(event)
    }
}

/// The exit code line depends on the exit code alone: a command's result
/// is the result for its streams with exit code zero, followed by the
/// result for no output at all with its exit code, which is nothing for
/// zero and `退出码: ` with the code otherwise. The streams' sections stand
/// one after the other.
pub proof fn law_exit_code_line(stdout: Seq<char>, stderr: Seq<char>, exit_code: int)
    ensures
        command_result_text(stdout, stderr, exit_code) == command_result_text(stdout, stderr, 0)
            + command_result_text(seq![], seq![], exit_code),
        command_result_text(seq![], seq![], 0) == Seq::<char>::empty(),
        exit_code != 0 ==> command_result_text(seq![], seq![], exit_code) == "退出码: "@ + int_text(
            exit_code,
        ) + "\n"@,
        exit_code != 0 ==> finishes_with(
            command_result_text(stdout, stderr, exit_code),
            "退出码: "@ + int_text(exit_code) + "\n"@,
        ),
        command_result_text(stdout, stderr, 0) == command_result_text(stdout, seq![], 0)
            + command_result_text(seq![], stderr, 0),
{
    let e: Seq<char> = seq![];
    assert(lines(e) =~= Seq::<Seq<char>>::empty());
    assert(stream_section("输出:\n"@, "  ... (更多输出已省略)\n"@, e) =~= e);
    assert(stream_section("错误:\n"@, "  ... (更多错误已省略)\n"@, e) =~= e);
    let a = stream_section("输出:\n"@, "  ... (更多输出已省略)\n"@, stdout);
    let b = stream_section("错误:\n"@, "  ... (更多错误已省略)\n"@, stderr);
    let tail = "退出码: "@ + int_text(exit_code) + "\n"@;
    assert(a + b + e =~= a + b);
    assert(e + e + e =~= e);
    assert(e + e + tail =~= tail);
    assert(a + e + e =~= a);
    assert(e + b + e =~= b);
    if exit_code != 0 {
        let r = a + b + tail;
        assert(r.subrange(r.len() - tail.len(), r.len() as int) =~= tail);
    }
}

} // verus!
