//! Bash command sandbox: a command whitelist and restrictions on the paths
//! that a command names.
use vstd::prelude::*;

pub mod config;
pub mod network;
pub mod whitelist;

pub use config::{NetworkConfig, SandboxConfig};
pub use whitelist::{extract_command, Whitelist};

use crate::path::{
    canonical_answer, canonical_path, component_prefix, is_absolute, joined, path_is_absolute,
    path_join, path_starts_with,
};
use crate::sandbox::fs::answer_view;
use crate::text::{
    begins_with, chars_of, contains_char, contains_piece, ends_with, finishes_with, first_word,
    has_char, has_piece, split_words, starts_with, views_match, words,
};
use whitelist::{default_set, view_set};

verus! {

/// Sandbox validation errors.
#[derive(Debug)]
pub enum SandboxError {
    /// The command is not in the whitelist.
    CommandNotAllowed(String),
    /// The path lies outside the workspace.
    PathOutsideWorkspace(String),
    /// The path is malformed (or the command is empty).
    InvalidPath(String),
    /// The path contains `..`.
    PathTraversal(String),
    /// The path escapes the workspace through a symbolic link.
    SymlinkEscape(String),
}

/// A `SandboxError` with its text as a character sequence.
pub enum SandboxErrorView {
    CommandNotAllowed(Seq<char>),
    PathOutsideWorkspace(Seq<char>),
    InvalidPath(Seq<char>),
    PathTraversal(Seq<char>),
    SymlinkEscape(Seq<char>),
}

impl View for SandboxError {
    type V = SandboxErrorView;

    open spec fn view(&self) -> SandboxErrorView {
        match self {
            SandboxError::CommandNotAllowed(s) => SandboxErrorView::CommandNotAllowed(s@),
            SandboxError::PathOutsideWorkspace(s) => SandboxErrorView::PathOutsideWorkspace(s@),
            SandboxError::InvalidPath(s) => SandboxErrorView::InvalidPath(s@),
            SandboxError::PathTraversal(s) => SandboxErrorView::PathTraversal(s@),
            SandboxError::SymlinkEscape(s) => SandboxErrorView::SymlinkEscape(s@),
        }
    }
}

/// The view of a validation result.
pub open spec fn verdict(r: Result<(), SandboxError>) -> Result<(), SandboxErrorView> {
    match r {
        Ok(()) => Ok(()),
        Err(e) => Err(e@),
    }
}

/// The text that `Display` shows for each error.
pub open spec fn error_text(e: SandboxErrorView) -> Seq<char> {
    match e {
        SandboxErrorView::CommandNotAllowed(s) => "Command not in whitelist: "@ + s,
        SandboxErrorView::PathOutsideWorkspace(s) => "Path outside workspace: "@ + s,
        SandboxErrorView::InvalidPath(s) => "Invalid path: "@ + s,
        SandboxErrorView::PathTraversal(s) => "Path traversal detected: "@ + s,
        SandboxErrorView::SymlinkEscape(s) => "Symlink escape detected: "@ + s,
    }
}

impl SandboxError {
    /// The error's message.
    pub fn message(&self) -> (res: String)
        ensures
            res@ == error_text(self@),
    {
        let (prefix, s) = match self {
            SandboxError::CommandNotAllowed(s) => ("Command not in whitelist: ", s),
            SandboxError::PathOutsideWorkspace(s) => ("Path outside workspace: ", s),
            SandboxError::InvalidPath(s) => ("Invalid path: ", s),
            SandboxError::PathTraversal(s) => ("Path traversal detected: ", s),
            SandboxError::SymlinkEscape(s) => ("Symlink escape detected: ", s),
        };
        let mut res = prefix.to_owned();
        res.append(s.as_str());
        res
    }
}

/// What the checks of a sandbox read: the workspace, the further allowed
/// paths and the whitelisted commands.
pub struct SandboxView {
    pub workspace: Seq<char>,
    pub allowed: Seq<Seq<char>>,
    pub commands: Set<Seq<char>>,
}

/// The views of a sequence of strings.
pub open spec fn strings_view(v: Seq<String>) -> Seq<Seq<char>> {
    v.map_values(|s: String| s@)
}

/// A quoted word (`"..."` or `'...'`) is taken for a pattern; any other word
/// that holds `/` or `.`, or ends in a common file extension, for a path.
pub open spec fn path_like(s: Seq<char>) -> bool {
    if (begins_with(s, "\""@) && finishes_with(s, "\""@)) || (begins_with(s, "'"@)
        && finishes_with(s, "'"@)) {
        false
    } else {
        ||| has_char(s, '/')
        ||| has_char(s, '.')
        ||| finishes_with(s, ".rs"@)
        ||| finishes_with(s, ".txt"@)
        ||| finishes_with(s, ".json"@)
        ||| finishes_with(s, ".toml"@)
        ||| finishes_with(s, ".md"@)
    }
}

/// The check of a relative path once it is joined to the workspace, given
/// what canonicalizing the joined path and the workspace answered: the
/// canonical form of the joined path (or the joined path itself when it
/// cannot be resolved) must lie inside the canonical workspace (or the
/// workspace itself when it cannot be resolved).
pub open spec fn resolved_outcome(
    resolved: Seq<char>,
    workspace: Seq<char>,
    canon_resolved: Result<Seq<char>, Seq<char>>,
    canon_workspace: Result<Seq<char>, Seq<char>>,
    requested: Seq<char>,
) -> Result<(), SandboxErrorView> {
    let canonical = match canon_resolved {
        Ok(c) => c,
        Err(_) => resolved,
    };
    let ws = match canon_workspace {
        Ok(c) => c,
        Err(_) => workspace,
    };
    if !component_prefix(canonical, ws) {
        Err(SandboxErrorView::PathOutsideWorkspace(requested))
    } else {
        Ok(())
    }
}

/// Some further allowed path is a component prefix of `p`.
pub open spec fn under_allowed(allowed: Seq<Seq<char>>, p: Seq<char>) -> bool {
    exists|i: int| 0 <= i < allowed.len() && component_prefix(p, #[trigger] allowed[i])
}

/// Whether the check of `p` reaches the filesystem: a relative path free of
/// null bytes and of `..`.
pub open spec fn reaches_filesystem(p: Seq<char>) -> bool {
    !has_char(p, '\0') && !has_piece(p, ".."@) && !is_absolute(p)
}

/// The check of one path, given what the filesystem answers for the
/// canonical forms of the joined path and of the workspace.
pub open spec fn path_outcome(
    v: SandboxView,
    p: Seq<char>,
    canon_resolved: Result<Seq<char>, Seq<char>>,
    canon_workspace: Result<Seq<char>, Seq<char>>,
) -> Result<(), SandboxErrorView> {
    if has_char(p, '\0') {
        Err(SandboxErrorView::InvalidPath("Null byte in path"@))
    } else if has_piece(p, ".."@) {
        Err(SandboxErrorView::PathTraversal(p))
    } else if is_absolute(p) {
        if under_allowed(v.allowed, p) {
            Ok(())
        } else {
            Err(SandboxErrorView::PathOutsideWorkspace(p))
        }
    } else {
        resolved_outcome(joined(v.workspace, p), v.workspace, canon_resolved, canon_workspace, p)
    }
}

/// The answers were given by the filesystem for the paths that the check of
/// `p` asks about: when it reaches the filesystem, the joined path
/// `joined(workspace, p)` and the workspace itself.
pub open spec fn answers_for(
    v: SandboxView,
    p: Seq<char>,
    canon_resolved: Result<Seq<char>, Seq<char>>,
    canon_workspace: Result<Seq<char>, Seq<char>>,
) -> bool {
    reaches_filesystem(p) ==> {
        &&& canonical_answer(joined(v.workspace, p), canon_resolved)
        &&& canonical_answer(v.workspace, canon_workspace)
    }
}

/// `r` is the result of the check of `p` for some answers that the
/// filesystem gave on the paths that the check asks about.
pub open spec fn may_give(v: SandboxView, p: Seq<char>, r: Result<(), SandboxErrorView>) -> bool {
    exists|cr: Result<Seq<char>, Seq<char>>, cw: Result<Seq<char>, Seq<char>>|
        answers_for(v, p, cr, cw) && #[trigger] path_outcome(v, p, cr, cw) == r
}

/// A word of a command is checked as a path unless it is an option, a
/// whitelisted command, or does not look like a path.
pub open spec fn checked_word(v: SandboxView, w: Seq<char>) -> bool {
    &&& !(w.len() > 0 && w[0] == '-')
    &&& !v.commands.contains(w)
    &&& path_like(w)
}

/// `r` is a result that the path checks of `command` can give: the words are
/// checked in order and the first failure is the result.
pub open spec fn paths_verdict(
    v: SandboxView,
    command: Seq<char>,
    r: Result<(), SandboxErrorView>,
) -> bool {
    let ws = words(command);
    match r {
        Ok(()) => forall|i: int|
            0 <= i < ws.len() && checked_word(v, #[trigger] ws[i]) ==> may_give(v, ws[i], Ok(())),
        Err(e) => exists|k: int|
            0 <= k < ws.len() && checked_word(v, #[trigger] ws[k]) && may_give(v, ws[k], Err(e))
                && forall|i: int|
                0 <= i < k && checked_word(v, #[trigger] ws[i]) ==> may_give(v, ws[i], Ok(())),
    }
}

/// What `validate_command` can return for `command`.
pub open spec fn command_verdict(
    v: SandboxView,
    command: Seq<char>,
    r: Result<(), SandboxErrorView>,
) -> bool {
    match first_word(command) {
        None => r == Err::<(), SandboxErrorView>(SandboxErrorView::InvalidPath("Empty command"@)),
        Some(m) => if !v.commands.contains(m) {
            r == Err::<(), SandboxErrorView>(SandboxErrorView::CommandNotAllowed(m))
        } else {
            paths_verdict(v, command, r)
        },
    }
}

/// Bash command sandbox.
#[derive(Debug)]
pub struct Sandbox {
    config: SandboxConfig,
    whitelist: Whitelist,
}

impl View for Sandbox {
    type V = SandboxView;

    closed spec fn view(&self) -> SandboxView {
        SandboxView {
            workspace: self.config.workspace_dir@,
            allowed: strings_view(self.config.allowed_paths@),
            commands: self.whitelist@,
        }
    }
}

/// Whether `s` looks like a file path (see `path_like`).
pub fn looks_like_path(s: &str) -> (res: bool)
    ensures
        res == path_like(s@),
{
    let cs = chars_of(s);
    let dq = chars_of("\"");
    let sq = chars_of("'");
    if (starts_with(&cs, &dq) && ends_with(&cs, &dq)) || (starts_with(&cs, &sq) && ends_with(
        &cs,
        &sq,
    )) {
        return false;
    }
    let rs = chars_of(".rs");
    let txt = chars_of(".txt");
    let json = chars_of(".json");
    let toml = chars_of(".toml");
    let md = chars_of(".md");
    contains_char(&cs, '/') || contains_char(&cs, '.') || ends_with(&cs, &rs) || ends_with(
        &cs,
        &txt,
    ) || ends_with(&cs, &json) || ends_with(&cs, &toml) || ends_with(&cs, &md)
}

impl Sandbox {
    /// The whitelist holds the default commands and the configured extras.
    #[verifier::type_invariant]
    closed spec fn whitelist_matches(&self) -> bool {
        self.whitelist@ == default_set().union(view_set(self.config.extra_whitelist@))
    }

    /// Sandbox with the given configuration.
    pub fn new(config: SandboxConfig) -> (res: Self)
        ensures
            res@.workspace == config.workspace_dir@,
            res@.allowed == strings_view(config.allowed_paths@),
            res@.commands == default_set().union(view_set(config.extra_whitelist@)),
    {
        let mut extra: Vec<String> = Vec::new();
        let mut i: usize = 0;
        while i < config.extra_whitelist.len()
            invariant
                i <= config.extra_whitelist@.len(),
                extra@ == config.extra_whitelist@.take(i as int),
            decreases config.extra_whitelist.len() - i,
        {
            extra.push(config.extra_whitelist[i].clone());
            assert(extra@ =~= config.extra_whitelist@.take(i + 1));
            i = i + 1;
        }
        assert(extra@ =~= config.extra_whitelist@);
        let whitelist = Whitelist::new(extra);
        Sandbox { config, whitelist }
    }

    /// The sandbox's configuration.
    pub fn config(&self) -> (res: &SandboxConfig)
        ensures
            res.workspace_dir@ == self@.workspace,
            strings_view(res.allowed_paths@) == self@.allowed,
    {
        &self.config
    }

    /// Validates a command line before it is run: its first word must be a
    /// whitelisted command and the paths that it names must pass `validate_path`.
    pub fn validate_command(&self, command: &str) -> (res: Result<(), SandboxError>)
        ensures
            command_verdict(self@, command@, verdict(res)),
    {
        let main_cmd = match extract_command(command) {
            Some(m) => m,
            None => {
                return Err(SandboxError::InvalidPath("Empty command".to_owned()));
            },
        };
        if !self.whitelist.is_allowed(main_cmd.as_str()) {
            return Err(SandboxError::CommandNotAllowed(main_cmd));
        }
        self.validate_paths_in_command(command)
    }

    /// Checks, in order, every word of `command` that looks like a path.
    fn validate_paths_in_command(&self, command: &str) -> (res: Result<(), SandboxError>)
        ensures
            paths_verdict(self@, command@, verdict(res)),
    {
        let cs = chars_of(command);
        let ws = split_words(&cs);
        let ghost wv = words(command@);
        let mut i: usize = 0;
        while i < ws.len()
            invariant
                views_match(ws@, wv),
                wv == words(command@),
                i <= ws@.len(),
                forall|k: int|
                    0 <= k < i && checked_word(self@, #[trigger] wv[k]) ==> may_give(
                        self@,
                        wv[k],
                        Ok(()),
                    ),
            decreases ws.len() - i,
        {
            let word = crate::text::string_of(ws[i].as_slice());
            assert(word@ == wv[i as int]);
            if ws[i].len() > 0 && ws[i][0] == '-' {
                i = i + 1;
                continue;
            }
            if self.whitelist.is_allowed(word.as_str()) {
                i = i + 1;
                continue;
            }
            if looks_like_path(word.as_str()) {
                let r = self.validate_path(word.as_str());
                match r {
                    Ok(()) => {},
                    Err(e) => {
                        assert(checked_word(self@, wv[i as int]));
                        return Err(e);
                    },
                }
            }
            i = i + 1;
        }
        Ok(())
    }

    /// Validates one path: it must be free of null bytes and of `..`; an
    /// absolute path must lie under one of the allowed paths; a relative path
    /// is joined to the workspace and must stay inside it once resolved.
    pub fn validate_path(&self, path_str: &str) -> (res: Result<(), SandboxError>)
        ensures
            may_give(self@, path_str@, verdict(res)),
    {
        let ghost none: Result<Seq<char>, Seq<char>> = Err(Seq::empty());
        let cs = chars_of(path_str);
        if contains_char(&cs, '\0') {
            let res = Err(SandboxError::InvalidPath("Null byte in path".to_owned()));
            assert(path_outcome(self@, path_str@, none, none) == verdict(res));
            assert(answers_for(self@, path_str@, none, none));
            return res;
        }
        let dots = chars_of("..");
        if contains_piece(&cs, &dots) {
            let res = Err(SandboxError::PathTraversal(path_str.to_owned()));
            assert(path_outcome(self@, path_str@, none, none) == verdict(res));
            assert(answers_for(self@, path_str@, none, none));
            return res;
        }
        if path_is_absolute(path_str) {
            assert(answers_for(self@, path_str@, none, none));
            let mut i: usize = 0;
            while i < self.config.allowed_paths.len()
                invariant
                    i <= self.config.allowed_paths@.len(),
                    is_absolute(path_str@),
                    !has_char(path_str@, '\0'),
                    !has_piece(path_str@, ".."@),
                    forall|k: int|
                        0 <= k < i ==> !component_prefix(
                            path_str@,
                            #[trigger] strings_view(self.config.allowed_paths@)[k],
                        ),
                decreases self.config.allowed_paths.len() - i,
            {
                if path_starts_with(path_str, self.config.allowed_paths[i].as_str()) {
                    assert(component_prefix(
                        path_str@,
                        strings_view(self.config.allowed_paths@)[i as int],
                    ));
                    assert(path_outcome(self@, path_str@, none, none) == Ok::<
                        (),
                        SandboxErrorView,
                    >(()));
                    return Ok(());
                }
                i = i + 1;
            }
            let res = Err(SandboxError::PathOutsideWorkspace(path_str.to_owned()));
            assert(path_outcome(self@, path_str@, none, none) == verdict(res));
            return res;
        }
        let resolved = path_join(self.config.workspace_dir.as_str(), path_str);
        let res = self.validate_resolved_path(resolved.as_str(), path_str);
        proof {
            let (cr, cw) = choose|cr: Result<Seq<char>, Seq<char>>, cw: Result<Seq<char>, Seq<char>>|
                canonical_answer(resolved@, cr) && canonical_answer(self@.workspace, cw)
                    && #[trigger] resolved_outcome(resolved@, self@.workspace, cr, cw, path_str@)
                    == verdict(res);
            assert(answers_for(self@, path_str@, cr, cw));
            assert(path_outcome(self@, path_str@, cr, cw) == verdict(res));
        }
        res
    }

    /// Checks that the canonical form of `resolved` lies in the canonical
    /// workspace, asking the filesystem for both.
    fn validate_resolved_path(&self, resolved: &str, requested: &str) -> (res: Result<
        (),
        SandboxError,
    >)
        ensures
            exists|cr: Result<Seq<char>, Seq<char>>, cw: Result<Seq<char>, Seq<char>>|
                canonical_answer(resolved@, cr) && canonical_answer(self@.workspace, cw)
                    && #[trigger] resolved_outcome(resolved@, self@.workspace, cr, cw, requested@)
                    == verdict(res),
    {
        let cr = canonical_path(resolved);
        let cw = canonical_path(self.config.workspace_dir.as_str());
        let ghost (gr, gw) = (answer_view(cr), answer_view(cw));
        let res = resolved_check(resolved, self.config.workspace_dir.as_str(), cr, cw, requested);
        assert(canonical_answer(resolved@, gr) && canonical_answer(self@.workspace, gw));
        res
    }

    /// The workspace directory.
    pub fn workspace_dir(&self) -> (res: &str)
        ensures
            res@ == self@.workspace,
    {
        self.config.workspace_dir.as_str()
    }
}

/// The check of a resolved path from what canonicalizing it and the
/// workspace answered (see `resolved_outcome`): an answer that is an error
/// leaves the path as it was given.
pub fn resolved_check(
    resolved: &str,
    workspace: &str,
    canon_resolved: Result<String, String>,
    canon_workspace: Result<String, String>,
    requested: &str,
) -> (res: Result<(), SandboxError>)
    ensures
        verdict(res) == resolved_outcome(
            resolved@,
            workspace@,
            answer_view(canon_resolved),
            answer_view(canon_workspace),
            requested@,
        ),
{
    let canonical = match canon_resolved {
        Ok(c) => c,
        Err(_) => resolved.to_owned(),
    };
    let workspace_canonical = match canon_workspace {
        Ok(c) => c,
        Err(_) => workspace.to_owned(),
    };
    if !path_starts_with(canonical.as_str(), workspace_canonical.as_str()) {
        return Err(SandboxError::PathOutsideWorkspace(requested.to_owned()));
    }
    let resolved_owned = resolved.to_owned();
    if canonical != resolved_owned {
        if !path_starts_with(canonical.as_str(), workspace_canonical.as_str()) {
            return Err(SandboxError::SymlinkEscape(requested.to_owned()));
        }
    }
    Ok(())
}

impl Default for Sandbox {
    fn default() -> (res: Self)
        ensures
            config::workspace_default(res@.workspace),
            res@.allowed.len() == 0,
            res@.commands == default_set(),
    {
        let res = Sandbox::new(SandboxConfig::default());
        proof {
            assert(res@.commands == default_set().union(view_set(Seq::<String>::empty())));
            assert(view_set(Seq::<String>::empty()) =~= Set::empty());
            assert(default_set().union(Set::empty()) =~= default_set());
        }
        res
    }
}

/// A path with `..` in it is refused as a traversal, whatever the
/// filesystem answers.
pub proof fn law_traversal_refused(v: SandboxView, p: Seq<char>)
    requires
        has_piece(p, ".."@),
        !has_char(p, '\0'),
    ensures
        forall|cr: Result<Seq<char>, Seq<char>>, cw: Result<Seq<char>, Seq<char>>|
            #[trigger] path_outcome(v, p, cr, cw) == Err::<(), SandboxErrorView>(SandboxErrorView::PathTraversal(p)),
{
}

/// A command whose first word is not whitelisted is refused, and only so.
pub proof fn law_unlisted_command_refused(v: SandboxView, command: Seq<char>, r: Result<(), SandboxErrorView>)
    requires
        first_word(command) matches Some(m) && !v.commands.contains(m),
    ensures
        command_verdict(v, command, r) <==> r == Err::<(), SandboxErrorView>(
            SandboxErrorView::CommandNotAllowed(first_word(command)->0),
        ),
{
}

/// A command that names, in a word that is checked, a path that every
/// answer of the filesystem refuses is itself refused.
proof fn lemma_refused_word_refuses_command(v: SandboxView, command: Seq<char>, k: int, r: Result<(), SandboxErrorView>)
    requires
        0 <= k < words(command).len(),
        checked_word(v, words(command)[k]),
        forall|cr: Result<Seq<char>, Seq<char>>, cw: Result<Seq<char>, Seq<char>>|
            #[trigger] path_outcome(v, words(command)[k], cr, cw) is Err,
        command_verdict(v, command, r),
    ensures
        r is Err,
{
    if r is Ok {
        if let Some(m) = first_word(command) {
            if v.commands.contains(m) {
                let w = words(command)[k];
                assert(may_give(v, w, Ok(())));
                let (cr, cw) = choose|cr: Result<Seq<char>, Seq<char>>, cw: Result<Seq<char>, Seq<char>>|
                    answers_for(v, w, cr, cw) && #[trigger] path_outcome(v, w, cr, cw) == Ok::<
                        (),
                        SandboxErrorView,
                    >(());
                assert(path_outcome(v, w, cr, cw) is Err);
            }
        }
    }
}

/// A command that names a path with `..` in a checked word is never
/// accepted.
pub proof fn law_command_with_traversal_refused(v: SandboxView, command: Seq<char>, k: int, r: Result<(), SandboxErrorView>)
    requires
        0 <= k < words(command).len(),
        checked_word(v, words(command)[k]),
        has_piece(words(command)[k], ".."@),
        !has_char(words(command)[k], '\0'),
        command_verdict(v, command, r),
    ensures
        r is Err,
{
    law_traversal_refused(v, words(command)[k]);
    lemma_refused_word_refuses_command(v, command, k, r);
}

/// A command that names, in a checked word, an absolute path under none of
/// the further allowed paths is never accepted.
pub proof fn law_command_with_outside_path_refused(v: SandboxView, command: Seq<char>, k: int, r: Result<(), SandboxErrorView>)
    requires
        0 <= k < words(command).len(),
        checked_word(v, words(command)[k]),
        is_absolute(words(command)[k]),
        !under_allowed(v.allowed, words(command)[k]),
        !has_piece(words(command)[k], ".."@),
        !has_char(words(command)[k], '\0'),
        command_verdict(v, command, r),
    ensures
        r is Err,
{
    law_absolute_outside_refused(v, words(command)[k]);
    lemma_refused_word_refuses_command(v, command, k, r);
}

/// An absolute path under none of the further allowed paths is refused as
/// outside the workspace, whatever the filesystem answers.
pub proof fn law_absolute_outside_refused(v: SandboxView, p: Seq<char>)
    requires
        is_absolute(p),
        !under_allowed(v.allowed, p),
        !has_piece(p, ".."@),
        !has_char(p, '\0'),
    ensures
        forall|cr: Result<Seq<char>, Seq<char>>, cw: Result<Seq<char>, Seq<char>>|
            #[trigger] path_outcome(v, p, cr, cw) == Err::<(), SandboxErrorView>(SandboxErrorView::PathOutsideWorkspace(p)),
{
}

/// A relative path whose canonical form lies inside the canonical
/// workspace passes; one whose canonical form lies outside it is refused.
pub proof fn law_relative_path_checked_against_workspace(
    v: SandboxView,
    p: Seq<char>,
    c: Seq<char>,
    w: Seq<char>,
)
    requires
        reaches_filesystem(p),
    ensures
        component_prefix(c, w) ==> path_outcome(v, p, Ok(c), Ok(w)) == Ok::<(), SandboxErrorView>(()),
        !component_prefix(c, w) ==> path_outcome(v, p, Ok(c), Ok(w)) == Err::<(), SandboxErrorView>(
            SandboxErrorView::PathOutsideWorkspace(p),
        ),
{
}

} // verus!
