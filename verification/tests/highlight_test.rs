//! Tests of the syntax highlighting of code blocks.

use neoco::tui::chat::{DisplayLine, Span, SpanStyle};
use neoco::tui::highlight::{shown_lines, CodeHighlighter, ColoredSpan, ShownLine};

fn texts(line: &[ColoredSpan]) -> String {
    line.iter().map(|s| s.text.as_str()).collect()
}

#[test]
fn test_highlighter_creation() {
    let highlighter = CodeHighlighter::new();
    let lines = highlighter.highlight("test", None);
    assert!(!lines.is_empty());
}

#[test]
fn test_highlight_rust_code() {
    let highlighter = CodeHighlighter::new();
    let code = "fn main() {\n    println!(\"hello\");\n}";
    let lines = highlighter.highlight(code, Some("Rust"));
    assert_eq!(lines.len(), 3);
}

#[test]
fn test_highlight_plain_text() {
    let highlighter = CodeHighlighter::new();
    let code = "just plain text";
    let lines = highlighter.highlight(code, None);
    assert_eq!(lines.len(), 1);
}

#[test]
fn test_highlight_unknown_language() {
    let highlighter = CodeHighlighter::new();
    let code = "some code";
    let lines = highlighter.highlight(code, Some("unknown_language_xyz"));
    assert_eq!(lines.len(), 1);
}

#[test]
fn highlighted_lines_keep_their_text() {
    let highlighter = CodeHighlighter::new();
    let code = "fn main() {\r\n    let x = 1;\n}\n";
    let lines = highlighter.highlight(code, Some("rs"));
    let shown: Vec<String> = lines.iter().map(|l| texts(l)).collect();
    assert_eq!(shown, vec!["fn main() {", "    let x = 1;", "}"]);
    assert!(lines.iter().flatten().all(|s| s.color.is_some()));
}

#[test]
fn empty_code_has_no_lines() {
    let highlighter = CodeHighlighter::new();
    assert!(highlighter.highlight("", Some("rs")).is_empty());
}

#[test]
fn rust_code_is_coloured_as_rust() {
    let highlighter = CodeHighlighter::new();
    let rust = highlighter.highlight("fn main() {}", Some("rs"));
    let plain = highlighter.highlight("fn main() {}", Some("unknown_language_xyz"));
    assert_eq!(rust.len(), 1);
    assert_eq!(plain.len(), 1);
    assert!(rust[0].len() > 1);
    assert_eq!(plain[0].len(), 1);
    assert_eq!(texts(&rust[0]), "fn main() {}");
    assert_eq!(texts(&plain[0]), "fn main() {}");
}

#[test]
fn shown_lines_expand_code_blocks() {
    let highlighter = CodeHighlighter::new();
    let lines = vec![
        DisplayLine::Spans(vec![Span { text: "Assistant:".to_string(), style: SpanStyle::Plain }]),
        DisplayLine::Code { language: Some("rust".to_string()), code: "let a = 1;\nlet b = 2;".to_string() },
    ];
    let shown = shown_lines(lines, &highlighter);
    assert_eq!(shown.len(), 3);
    match &shown[0] {
        ShownLine::Styled(spans) => assert_eq!(spans[0].text, "Assistant:"),
        other => panic!("unexpected {other:?}"),
    }
    match (&shown[1], &shown[2]) {
        (ShownLine::Colored(a), ShownLine::Colored(b)) => {
            assert_eq!(texts(a), "let a = 1;");
            assert_eq!(texts(b), "let b = 2;");
        },
        other => panic!("unexpected {other:?}"),
    }
}
