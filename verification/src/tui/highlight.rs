//! Syntax highlighting of code blocks, through `syntect`: one line of
//! coloured pieces per line of code.
//!
//! A `CodeHighlighter` always holds the default syntaxes and themes of
//! `syntect`, so what a lookup or a highlighted line gives is a function of
//! the names, tokens and lines handed over; the names below stand for it.
use vstd::prelude::*;

use syntect::easy::HighlightLines;
use syntect::highlighting::{Theme, ThemeSet};
use syntect::parsing::{SyntaxReference, SyntaxSet};

use crate::text::{chars_of, lines, split_lines, string_of, views_match};
use crate::tui::chat::{DisplayLine, LineView, Span, SpanStyle};

verus! {

#[verifier::external_type_specification]
#[verifier::external_body]
pub struct ExSyntaxSet(SyntaxSet);

#[verifier::external_type_specification]
#[verifier::external_body]
pub struct ExThemeSet(ThemeSet);

#[verifier::external_type_specification]
#[verifier::external_body]
pub struct ExSyntaxReference(SyntaxReference);

#[verifier::external_type_specification]
#[verifier::external_body]
pub struct ExTheme(Theme);

#[verifier::external_type_specification]
#[verifier::external_body]
pub struct ExHighlightLines<'a>(HighlightLines<'a>);

/// A piece of a highlighted line: its text, and its foreground colour as
/// red, green and blue (none for text shown as it is).
#[derive(Debug, Clone, PartialEq, Eq)]
pub struct ColoredSpan {
    pub text: String,
    pub color: Option<(u8, u8, u8)>,
}

/// A piece as plain values: its text and its colour.
pub type PieceView = (Seq<char>, Option<(u8, u8, u8)>);

/// The view of a piece.
pub open spec fn span_view(s: ColoredSpan) -> PieceView {
    (s.text@, s.color)
}

/// The view of a line of pieces.
pub open spec fn line_view(v: Seq<ColoredSpan>) -> Seq<PieceView> {
    v.map_values(|s: ColoredSpan| span_view(s))
}

/// The views of lines of pieces.
pub open spec fn lines_view(v: Seq<Vec<ColoredSpan>>) -> Seq<Seq<PieceView>> {
    v.map_values(|l: Vec<ColoredSpan>| line_view(l@))
}

/// The texts of `spans`, one after the other.
pub open spec fn spans_text(spans: Seq<ColoredSpan>) -> Seq<char>
    decreases spans.len(),
{
    if spans.len() == 0 {
        seq![]
    } else {
        spans_text(spans.drop_last()) + spans.last().text@
    }
}

/// How a syntax is picked among the default syntaxes: by a token (a
/// language name or a file extension), or by its name.
pub enum SyntaxKey {
    Token(Seq<char>),
    Name(Seq<char>),
}

/// `SyntaxSet::find_syntax_by_token` finds a default syntax for `token`.
pub uninterp spec fn token_has_syntax(token: Seq<char>) -> bool;

/// `SyntaxSet::find_syntax_by_name` finds a default syntax named `name`.
pub uninterp spec fn has_syntax_named(name: Seq<char>) -> bool;

/// What `HighlightLines::highlight_line` gives for `line`, from a
/// highlighter made with the default syntax that `syntax` picks and the
/// default theme named `theme`, after it was called on each of `earlier`
/// in turn: the pieces with their foreground colours, none for an error.
pub uninterp spec fn highlighted_line(
    syntax: SyntaxKey,
    theme: Seq<char>,
    earlier: Seq<Seq<char>>,
    line: Seq<char>,
) -> Option<Seq<PieceView>>;

/// The keys that the documentation of `ThemeSet::load_defaults` lists.
pub open spec fn documented_theme(name: Seq<char>) -> bool {
    ||| name == "base16-ocean.dark"@
    ||| name == "base16-eighties.dark"@
    ||| name == "base16-mocha.dark"@
    ||| name == "base16-ocean.light"@
    ||| name == "InspiredGitHub"@
    ||| name == "Solarized (dark)"@
    ||| name == "Solarized (light)"@
}

/// A line shown as it is: one piece without colour.
pub open spec fn plain_piece_line(l: Seq<char>) -> Seq<PieceView> {
    seq![(l, None)]
}

/// The syntax for code in `language`: the default syntax that the language
/// names, plain text otherwise.
pub open spec fn syntax_for(language: Option<Seq<char>>) -> SyntaxKey {
    match language {
        Some(l) => if token_has_syntax(l) {
            SyntaxKey::Token(l)
        } else {
            SyntaxKey::Name("Plain Text"@)
        },
        None => SyntaxKey::Name("Plain Text"@),
    }
}

/// The lines `ls` highlighted one after the other; a line that cannot be
/// highlighted is shown as it is.
pub open spec fn highlighted_lines(syntax: SyntaxKey, theme: Seq<char>, ls: Seq<Seq<char>>) -> Seq<
    Seq<PieceView>,
> {
    Seq::new(
        ls.len(),
        |i: int|
            match highlighted_line(syntax, theme, ls.take(i), ls[i]) {
                Some(p) => p,
                None => plain_piece_line(ls[i]),
            },
    )
}

/// What highlighting `code` in `language` gives: its lines (`str::lines`)
/// highlighted with the syntax for the language and the theme
/// `base16-ocean.dark`; every line as it is where not even the plain text
/// syntax is there.
pub open spec fn highlight_of(code: Seq<char>, language: Option<Seq<char>>) -> Seq<Seq<PieceView>> {
    let ls = lines(code);
    let syntax = syntax_for(language);
    if syntax is Name && !has_syntax_named("Plain Text"@) {
        Seq::new(ls.len(), |i: int| plain_piece_line(ls[i]))
    } else {
        highlighted_lines(syntax, "base16-ocean.dark"@, ls)
    }
}

/// A default syntax, with how it was picked.
struct ChosenSyntax<'a> {
    syntax: &'a SyntaxReference,
    by_token: bool,
    key: String,
}

impl<'a> View for ChosenSyntax<'a> {
    type V = SyntaxKey;

    closed spec fn view(&self) -> SyntaxKey {
        if self.by_token {
            SyntaxKey::Token(self.key@)
        } else {
            SyntaxKey::Name(self.key@)
        }
    }
}

/// A default theme, with its key.
struct ChosenTheme<'a> {
    theme: &'a Theme,
    key: String,
}

impl<'a> View for ChosenTheme<'a> {
    type V = Seq<char>;

    closed spec fn view(&self) -> Seq<char> {
        self.key@
    }
}

/// What a line highlighter was made with, and the lines it has been given.
struct LineHighlighterView {
    syntax: SyntaxKey,
    theme: Seq<char>,
    earlier: Seq<Seq<char>>,
}

/// A highlighter of consecutive lines, with what it was made with and the
/// lines it has been given so far.
struct LineHighlighter<'a> {
    inner: HighlightLines<'a>,
    syntax: Ghost<SyntaxKey>,
    theme: Ghost<Seq<char>>,
    earlier: Ghost<Seq<Seq<char>>>,
}

impl<'a> View for LineHighlighter<'a> {
    type V = LineHighlighterView;

    closed spec fn view(&self) -> LineHighlighterView {
        LineHighlighterView { syntax: self.syntax@, theme: self.theme@, earlier: self.earlier@ }
    }
}

/// Calls `SyntaxSet::load_defaults_newlines`: the syntaxes that `syntect`
/// ships with.
#[verifier::external_body]
fn default_syntaxes() -> (res: SyntaxSet) {
    SyntaxSet::load_defaults_newlines()
}

/// Calls `ThemeSet::load_defaults`: the themes that `syntect` ships with.
#[verifier::external_body]
fn default_themes() -> (res: ThemeSet) {
    ThemeSet::load_defaults()
}

/// Calls `HighlightLines::new`: a highlighter for consecutive lines of code
/// in the chosen syntax, coloured by the chosen theme, that has been given
/// no line yet.
#[verifier::external_body]
fn line_highlighter<'a>(syntax: &ChosenSyntax<'a>, theme: &ChosenTheme<'a>) -> (res: LineHighlighter<'a>)
    ensures
        res@ == (LineHighlighterView { syntax: syntax@, theme: theme@, earlier: seq![] }),
{
    LineHighlighter {
        inner: HighlightLines::new(syntax.syntax, theme.theme),
        syntax: Ghost(syntax@),
        theme: Ghost(theme@),
        earlier: Ghost(seq![]),
    }
}

/// A line shown as it is: one piece without colour.
fn plain_line(line: String) -> (res: Vec<ColoredSpan>)
    ensures
        spans_text(res@) == line@,
        line_view(res@) == plain_piece_line(line@),
{
    let ghost t = line@;
    let mut res: Vec<ColoredSpan> = Vec::new();
    res.push(ColoredSpan { text: line, color: None });
    assert(res@.drop_last() =~= Seq::<ColoredSpan>::empty());
    assert(spans_text(Seq::<ColoredSpan>::empty()) == Seq::<char>::empty());
    assert(res@.last().text@ == t);
    assert(Seq::<char>::empty() + t =~= t);
    assert(line_view(res@) =~= plain_piece_line(t));
    res
}

/// Lines shown as they are.
fn plain_lines(ls: &Vec<Vec<char>>) -> (res: Vec<Vec<ColoredSpan>>)
    ensures
        res@.len() == ls@.len(),
        forall|i: int| 0 <= i < ls@.len() ==> spans_text(#[trigger] res@[i]@) == ls@[i]@,
        forall|i: int| 0 <= i < ls@.len() ==> line_view(#[trigger] res@[i]@) == plain_piece_line(ls@[i]@),
{
    let mut res: Vec<Vec<ColoredSpan>> = Vec::new();
    let mut i: usize = 0;
    while i < ls.len()
        invariant
            i <= ls@.len(),
            res@.len() == i,
            forall|k: int| 0 <= k < i ==> spans_text(#[trigger] res@[k]@) == ls@[k]@,
            forall|k: int| 0 <= k < i ==> line_view(#[trigger] res@[k]@) == plain_piece_line(ls@[k]@),
        decreases ls.len() - i,
    {
        res.push(plain_line(string_of(ls[i].as_slice())));
        i = i + 1;
    }
    res
}

/// Highlights code blocks with the syntaxes and themes of `syntect`.
pub struct CodeHighlighter {
    syntax_set: SyntaxSet,
    theme_set: ThemeSet,
}

impl CodeHighlighter {
    /// A highlighter with the default syntaxes and themes.
    pub fn new() -> (res: Self) {
        CodeHighlighter { syntax_set: default_syntaxes(), theme_set: default_themes() }
    }

    /// Calls `SyntaxSet::find_syntax_by_token` on the default syntaxes: the
    /// syntax that a language name or file extension stands for, if any.
    #[verifier::external_body]
    fn syntax_by_token(&self, token: &str) -> (res: Option<ChosenSyntax<'_>>)
        ensures
            res is Some == token_has_syntax(token@),
            res matches Some(s) ==> s@ == SyntaxKey::Token(token@),
    {
        match self.syntax_set.find_syntax_by_token(token) {
            Some(s) => Some(ChosenSyntax { syntax: s, by_token: true, key: token.to_string() }),
            None => None,
        }
    }

    /// Calls `SyntaxSet::find_syntax_by_name` on the default syntaxes: the
    /// syntax of that name, if any. (`find_syntax_plain_text` is this call
    /// with `Plain Text`, and panics where it finds none.)
    #[verifier::external_body]
    fn syntax_by_name(&self, name: &str) -> (res: Option<ChosenSyntax<'_>>)
        ensures
            res is Some == has_syntax_named(name@),
            res matches Some(s) ==> s@ == SyntaxKey::Name(name@),
    {
        match self.syntax_set.find_syntax_by_name(name) {
            Some(s) => Some(ChosenSyntax { syntax: s, by_token: false, key: name.to_string() }),
            None => None,
        }
    }

    /// Calls `BTreeMap::get` on the default themes: the theme with that
    /// key. The documentation of `ThemeSet::load_defaults` lists keys that
    /// the default themes include.
    #[verifier::external_body]
    fn theme_named(&self, name: &str) -> (res: Option<ChosenTheme<'_>>)
        ensures
            documented_theme(name@) ==> res is Some,
            res matches Some(t) ==> t@ == name@,
    {
        match self.theme_set.themes.get(name) {
            Some(t) => Some(ChosenTheme { theme: t, key: name.to_string() }),
            None => None,
        }
    }

    /// Calls `BTreeMap::first_key_value` on the default themes: the theme
    /// whose key comes first, none where there is no theme.
    #[verifier::external_body]
    fn first_theme(&self) -> (res: Option<ChosenTheme<'_>>) {
        match self.theme_set.themes.first_key_value() {
            Some((k, t)) => Some(ChosenTheme { theme: t, key: k.clone() }),
            None => None,
        }
    }

    /// Calls `HighlightLines::highlight_line` on the next line of code,
    /// with the default syntaxes; each piece keeps its text and its
    /// foreground colour, and an error becomes `None`. What comes out is
    /// `highlighted_line` of what the highlighter was made with, the lines
    /// it was given before, and this line. As the source shows, the pieces
    /// are consecutive slices of the line that end at its end, so their
    /// texts make up the line.
    #[verifier::external_body]
    fn highlight_next_line(&self, highlighter: &mut LineHighlighter, line: &str) -> (res: Option<
        Vec<ColoredSpan>,
    >)
        ensures
            final(highlighter)@ == (LineHighlighterView {
                earlier: old(highlighter)@.earlier.push(line@),
                ..old(highlighter)@
            }),
            match res {
                Some(spans) => highlighted_line(
                    old(highlighter)@.syntax,
                    old(highlighter)@.theme,
                    old(highlighter)@.earlier,
                    line@,
                ) == Some(line_view(spans@)),
                None => highlighted_line(
                    old(highlighter)@.syntax,
                    old(highlighter)@.theme,
                    old(highlighter)@.earlier,
                    line@,
                ) is None,
            },
            res matches Some(spans) ==> spans_text(spans@) == line@,
    {
        match highlighter.inner.highlight_line(line, &self.syntax_set) {
            Ok(ranges) => Some(
                ranges.into_iter().map(|(style, text)| ColoredSpan {
                    text: text.to_string(),
                    color: Some((style.foreground.r, style.foreground.g, style.foreground.b)),
                }).collect(),
            ),
            Err(_) => None,
        }
    }

    /// One line of coloured pieces per line of `code` (`str::lines`), whose
    /// texts make up that line (see `highlight_of`). The syntax is the one
    /// that `language` names, plain text otherwise; the theme is
    /// `base16-ocean.dark`. A line that cannot be highlighted is one piece
    /// without colour.
    pub fn highlight(&self, code: &str, language: Option<&str>) -> (res: Vec<Vec<ColoredSpan>>)
        ensures
            lines_view(res@) == highlight_of(
                code@,
                match language {
                    Some(l) => Some(l@),
                    None => None,
                },
            ),
            res@.len() == lines(code@).len(),
            forall|i: int| 0 <= i < res@.len() ==> spans_text(#[trigger] res@[i]@) == lines(code@)[i],
    {
        let ghost lang = match language {
            Some(l) => Some(l@),
            None => None,
        };
        let ghost ls_view = lines(code@);
        let cs = chars_of(code);
        let ls = split_lines(cs.as_slice());
        let by_token = match language {
            Some(lang) => self.syntax_by_token(lang),
            None => None,
        };
        let syntax = match by_token {
            Some(s) => s,
            None => match self.syntax_by_name("Plain Text") {
                Some(s) => s,
                None => {
                    let res = plain_lines(&ls);
                    assert(lines_view(res@) =~= highlight_of(code@, lang));
                    return res;
                },
            },
        };
        assert(syntax@ == syntax_for(lang));
        let theme = match self.theme_named("base16-ocean.dark") {
            Some(t) => t,
            None => match self.first_theme() {
                Some(t) => t,
                None => {
                    return plain_lines(&ls);
                },
            },
        };
        assert(theme@ == "base16-ocean.dark"@);
        let mut highlighter = line_highlighter(&syntax, &theme);
        let mut res: Vec<Vec<ColoredSpan>> = Vec::new();
        let mut i: usize = 0;
        while i < ls.len()
            invariant
                views_match(ls@, ls_view),
                ls_view == lines(code@),
                i <= ls@.len(),
                res@.len() == i,
                highlighter@.syntax == syntax_for(lang),
                highlighter@.theme == "base16-ocean.dark"@,
                highlighter@.earlier == ls_view.take(i as int),
                forall|k: int| 0 <= k < i ==> spans_text(#[trigger] res@[k]@) == ls@[k]@,
                forall|k: int|
                    0 <= k < i ==> line_view(#[trigger] res@[k]@) == highlighted_lines(
                        syntax_for(lang),
                        "base16-ocean.dark"@,
                        ls_view,
                    )[k],
            decreases ls.len() - i,
        {
            let line = string_of(ls[i].as_slice());
            let spans = match self.highlight_next_line(&mut highlighter, line.as_str()) {
                Some(spans) => spans,
                None => plain_line(line),
            };
            res.push(spans);
            assert(ls_view.take(i + 1) =~= ls_view.take(i as int).push(ls_view[i as int]));
            i = i + 1;
        }
        assert(lines_view(res@) =~= highlight_of(code@, lang));
        res
    }
}

/// A line as the terminal shows it: styled spans, or the coloured pieces
/// of one line of highlighted code.
#[derive(Debug)]
pub enum ShownLine {
    Styled(Vec<Span>),
    Colored(Vec<ColoredSpan>),
}

/// What a shown line holds.
pub enum ShownView {
    Styled(Seq<(Seq<char>, SpanStyle)>),
    Colored(Seq<PieceView>),
}

/// The view of a shown line.
pub open spec fn shown_view(l: ShownLine) -> ShownView {
    match l {
        ShownLine::Styled(spans) => ShownView::Styled(
            spans@.map_values(|s: Span| crate::tui::chat::span_view(s)),
        ),
        ShownLine::Colored(pieces) => ShownView::Colored(line_view(pieces@)),
    }
}

/// The views of shown lines.
pub open spec fn shown_views(v: Seq<ShownLine>) -> Seq<ShownView> {
    v.map_values(|l: ShownLine| shown_view(l))
}

/// The shown lines of one display line: itself for a line of spans, the
/// highlighted lines of the code for a code block.
pub open spec fn shown_of_line(l: LineView) -> Seq<ShownView> {
    match l {
        LineView::Spans(s) => seq![ShownView::Styled(s)],
        LineView::Code(language, code) => highlight_of(code, language).map_values(
            |p: Seq<PieceView>| ShownView::Colored(p),
        ),
    }
}

/// The shown lines of display lines, in order.
pub open spec fn shown_of(ls: Seq<LineView>) -> Seq<ShownView>
    decreases ls.len(),
{
    if ls.len() == 0 {
        seq![]
    } else {
        shown_of(ls.drop_last()) + shown_of_line(ls.last())
    }
}

/// The lines that the terminal shows for the chat's display lines: a line
/// of spans stays as it is, and a code block becomes its highlighted lines
/// (see `CodeHighlighter::highlight`).
pub fn shown_lines(lines: Vec<DisplayLine>, highlighter: &CodeHighlighter) -> (res: Vec<ShownLine>)
    ensures
        shown_views(res@) == shown_of(crate::tui::chat::lines_view(lines@)),
{
    let ghost all = lines@;
    let ghost k: int = 0;
    let mut rest = lines;
    let mut out: Vec<ShownLine> = Vec::new();
    assert(all.skip(0) =~= all);
    while rest.len() > 0
        invariant
            0 <= k <= all.len(),
            rest@ == all.skip(k),
            shown_views(out@) == shown_of(crate::tui::chat::lines_view(all.take(k))),
        decreases rest.len(),
    {
        let line = rest.remove(0);
        let ghost before = out@;
        assert(line == all[k]);
        match line {
            DisplayLine::Spans(spans) => {
                out.push(ShownLine::Styled(spans));
            },
            DisplayLine::Code { language, code } => {
                let lang: Option<&str> = match &language {
                    Some(l) => Some(l.as_str()),
                    None => None,
                };
                let mut hl = highlighter.highlight(code.as_str(), lang);
                let ghost hv = lines_view(hl@);
                let ghost j: int = 0;
                assert(hl@.skip(0) =~= hl@);
                while hl.len() > 0
                    invariant
                        0 <= j <= hv.len(),
                        lines_view(hl@) == hv.skip(j),
                        shown_views(out@) == shown_views(before) + hv.take(j).map_values(
                            |p: Seq<PieceView>| ShownView::Colored(p),
                        ),
                    decreases hl.len(),
                {
                    let ghost oh = hl@;
                    assert(lines_view(oh).len() == hv.skip(j).len());
                    assert(lines_view(oh)[0] == hv.skip(j)[0]);
                    let pieces = hl.remove(0);
                    let ghost prev = out@;
                    out.push(ShownLine::Colored(pieces));
                    proof {
                        assert(hl@ =~= oh.skip(1));
                        assert(line_view(pieces@) == hv[j]);
                        assert(lines_view(oh.skip(1)) =~= lines_view(oh).skip(1));
                        assert(hv.skip(j).skip(1) =~= hv.skip(j + 1));
                        assert(lines_view(hl@) =~= hv.skip(j + 1));
                        assert(hv.take(j + 1).map_values(|p: Seq<PieceView>| ShownView::Colored(p))
                            =~= hv.take(j).map_values(|p: Seq<PieceView>| ShownView::Colored(p)).push(
                            ShownView::Colored(hv[j]),
                        ));
                        assert(shown_views(out@) =~= shown_views(prev).push(ShownView::Colored(hv[j])));
                        j = j + 1;
                    }
                }
                assert(hv.take(j) =~= hv);
            },
        }
        proof {
            let lv = crate::tui::chat::lines_view(all.take(k + 1));
            assert(all.take(k + 1) =~= all.take(k).push(all[k]));
            assert(lv.drop_last() =~= crate::tui::chat::lines_view(all.take(k)));
            assert(lv.last() == crate::tui::chat::line_view(all[k]));
            assert(shown_views(out@) =~= shown_of(lv));
            assert(rest@ =~= all.skip(k + 1));
            k = k + 1;
        }
    }
    assert(all.take(k) =~= all);
    out
}

} // verus!
