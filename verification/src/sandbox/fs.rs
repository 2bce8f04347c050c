//! Filesystem sandboxing: path validation and resolution that keep every
//! file operation inside a designated workspace directory.
use vstd::prelude::*;

use super::error::{SandboxError, SandboxErrorView};
use crate::path::{
    canonical_answer, canonical_path, component_prefix, contains_parent_component, exists_answer,
    final_part, has_parent_component, is_absolute, joined, parent_part, path_exists, path_file_name,
    path_is_absolute, path_join, path_parent, path_starts_with,
};
use crate::text::{chars_of, contains_char, contains_piece, has_char, has_piece};

verus! {

/// The view of a resolution result.
pub open spec fn resolved_view(r: Result<String, SandboxError>) -> Result<
    Seq<char>,
    SandboxErrorView,
> {
    match r {
        Ok(p) => Ok(p@),
        Err(e) => Err(e@),
    }
}

/// The path that `user_path` names: itself when absolute, else joined to
/// the workspace.
pub open spec fn candidate_path(user_path: Seq<char>, workspace: Seq<char>) -> Seq<char> {
    if is_absolute(user_path) {
        user_path
    } else {
        joined(workspace, user_path)
    }
}

/// The canonical form of the candidate path, given what the filesystem
/// answers: whether the candidate exists, and the canonical forms (or error
/// messages) of the candidate and of its parent. A candidate that does not
/// exist yet is its canonical parent joined with its file name.
pub open spec fn candidate_canon(
    user_path: Seq<char>,
    workspace: Seq<char>,
    exists: bool,
    canon_candidate: Result<Seq<char>, Seq<char>>,
    canon_parent: Result<Seq<char>, Seq<char>>,
) -> Result<Seq<char>, SandboxErrorView> {
    let candidate = candidate_path(user_path, workspace);
    if exists {
        match canon_candidate {
            Ok(c) => Ok(c),
            Err(e) => Err(SandboxErrorView::Other("Cannot resolve path '"@ + user_path + "': "@ + e)),
        }
    } else {
        match parent_part(candidate) {
            Some(p) if p.len() > 0 => match canon_parent {
                Err(e) => Err(
                    SandboxErrorView::Other("Cannot resolve parent directory of '"@ + user_path + "': "@ + e),
                ),
                Ok(cp) => match final_part(candidate) {
                    Some(f) => Ok(joined(cp, f)),
                    None => Err(SandboxErrorView::InvalidPath("Invalid path (no filename): "@ + user_path)),
                },
            },
            _ => Err(SandboxErrorView::InvalidPath("Path has no parent directory: "@ + user_path)),
        }
    }
}

/// Whether the checks that need no filesystem pass: no null byte and no
/// `..` component.
pub open spec fn plain_path(user_path: Seq<char>) -> bool {
    !has_char(user_path, '\0') && !has_parent_component(user_path)
}

/// The resolution of `user_path` in `workspace`, given what the filesystem
/// answers: whether the candidate path exists, and the canonical forms
/// (or error messages) of the candidate, of its parent and of the workspace.
/// The canonical candidate must lie inside the canonical workspace.
pub open spec fn resolution(
    user_path: Seq<char>,
    workspace: Seq<char>,
    exists: bool,
    canon_candidate: Result<Seq<char>, Seq<char>>,
    canon_parent: Result<Seq<char>, Seq<char>>,
    canon_workspace: Result<Seq<char>, Seq<char>>,
) -> Result<Seq<char>, SandboxErrorView> {
    if has_char(user_path, '\0') {
        Err(SandboxErrorView::InvalidPath("Path contains null bytes"@))
    } else if has_parent_component(user_path) {
        Err(SandboxErrorView::PathTraversal(user_path))
    } else {
        match candidate_canon(user_path, workspace, exists, canon_candidate, canon_parent) {
            Err(e) => Err(e),
            Ok(c) => match canon_workspace {
                Err(e) => Err(SandboxErrorView::Other("Cannot canonicalize workspace root: "@ + e)),
                Ok(w) => if component_prefix(c, w) {
                    Ok(c)
                } else {
                    Err(SandboxErrorView::OutsideWorkspace { path: user_path, workspace })
                },
            },
        }
    }
}

/// The answers were given by the filesystem for the paths that resolving
/// `user_path` asks about, each asked only when resolution reaches it:
/// whether the candidate exists; the canonical form of the candidate when it
/// exists, else of its parent; then the canonical form of the workspace.
pub open spec fn answers_fit(
    user_path: Seq<char>,
    workspace: Seq<char>,
    exists: bool,
    canon_candidate: Result<Seq<char>, Seq<char>>,
    canon_parent: Result<Seq<char>, Seq<char>>,
    canon_workspace: Result<Seq<char>, Seq<char>>,
) -> bool {
    let candidate = candidate_path(user_path, workspace);
    plain_path(user_path) ==> {
        &&& exists_answer(candidate, exists)
        &&& exists ==> canonical_answer(candidate, canon_candidate)
        &&& (!exists && parent_part(candidate) is Some && parent_part(candidate)->0.len() > 0)
            ==> canonical_answer(parent_part(candidate)->0, canon_parent)
        &&& candidate_canon(user_path, workspace, exists, canon_candidate, canon_parent) is Ok
            ==> canonical_answer(workspace, canon_workspace)
    }
}

/// The view of a canonicalization answer.
pub open spec fn answer_view(r: Result<String, String>) -> Result<Seq<char>, Seq<char>> {
    match r {
        Ok(c) => Ok(c@),
        Err(e) => Err(e@),
    }
}

/// The stand-in for an answer that was not asked for.
fn no_answer() -> (res: Result<String, String>)
    ensures
        res is Err,
{
    Err(String::new())
}

/// `a + b + c + d` as a new string.
fn join4(a: &str, b: &str, c: &str, d: &str) -> (res: String)
    ensures
        res@ == a@ + b@ + c@ + d@,
{
    let mut res = a.to_owned();
    res.append(b);
    res.append(c);
    res.append(d);
    res
}

/// The path that `user_path` names in `workspace_root` (see `candidate_path`).
pub fn sandbox_candidate(user_path: &str, workspace_root: &str) -> (res: String)
    ensures
        res@ == candidate_path(user_path@, workspace_root@),
{
    if path_is_absolute(user_path) {
        user_path.to_owned()
    } else {
        path_join(workspace_root, user_path)
    }
}

/// The canonical form of the candidate path, from the filesystem's answers
/// (see `candidate_canon`).
pub fn candidate_step(
    user_path: &str,
    workspace_root: &str,
    exists: bool,
    canon_candidate: &Result<String, String>,
    canon_parent: &Result<String, String>,
) -> (res: Result<String, SandboxError>)
    ensures
        resolved_view(res) == candidate_canon(
            user_path@,
            workspace_root@,
            exists,
            answer_view(*canon_candidate),
            answer_view(*canon_parent),
        ),
{
    let candidate = sandbox_candidate(user_path, workspace_root);
    if exists {
        match canon_candidate {
            Ok(c) => Ok(c.clone()),
            Err(e) => Err(SandboxError::Other(join4("Cannot resolve path '", user_path, "': ", e.as_str()))),
        }
    } else {
        match path_parent(candidate.as_str()) {
            Some(p) => {
                if p.as_str().is_empty() {
                    let mut m = "Path has no parent directory: ".to_owned();
                    m.append(user_path);
                    return Err(SandboxError::InvalidPath(m));
                }
            },
            None => {
                let mut m = "Path has no parent directory: ".to_owned();
                m.append(user_path);
                return Err(SandboxError::InvalidPath(m));
            },
        }
        match canon_parent {
            Err(e) => Err(
                SandboxError::Other(join4("Cannot resolve parent directory of '", user_path, "': ", e.as_str())),
            ),
            Ok(cp) => match path_file_name(candidate.as_str()) {
                Some(f) => Ok(path_join(cp.as_str(), f.as_str())),
                None => {
                    let mut m = "Invalid path (no filename): ".to_owned();
                    m.append(user_path);
                    Err(SandboxError::InvalidPath(m))
                },
            },
        }
    }
}

/// The resolution of `user_path` in `workspace_root` from the filesystem's
/// answers (see `resolution`).
pub fn resolve_with_answers(
    user_path: &str,
    workspace_root: &str,
    exists: bool,
    canon_candidate: Result<String, String>,
    canon_parent: Result<String, String>,
    canon_workspace: Result<String, String>,
) -> (res: Result<String, SandboxError>)
    ensures
        resolved_view(res) == resolution(
            user_path@,
            workspace_root@,
            exists,
            answer_view(canon_candidate),
            answer_view(canon_parent),
            answer_view(canon_workspace),
        ),
{
    let cs = chars_of(user_path);
    if contains_char(&cs, '\0') {
        return Err(SandboxError::InvalidPath("Path contains null bytes".to_owned()));
    }
    if contains_parent_component(user_path) {
        return Err(SandboxError::PathTraversal(user_path.to_owned()));
    }
    let canon = match candidate_step(user_path, workspace_root, exists, &canon_candidate, &canon_parent) {
        Ok(c) => c,
        Err(e) => {
            return Err(e);
        },
    };
    match canon_workspace {
        Err(e) => {
            let mut m = "Cannot canonicalize workspace root: ".to_owned();
            m.append(e.as_str());
            Err(SandboxError::Other(m))
        },
        Ok(w) => {
            if path_starts_with(canon.as_str(), w.as_str()) {
                Ok(canon)
            } else {
                Err(
                    SandboxError::OutsideWorkspace {
                        path: user_path.to_owned(),
                        workspace: workspace_root.to_owned(),
                    },
                )
            }
        },
    }
}

/// Validates `user_path` and resolves it in `workspace_root`: the path must
/// hold no null byte and no `..` component; a relative path is joined to
/// the workspace; the result is canonicalized (through its parent when it
/// does not exist yet) and must lie inside the canonical workspace. The
/// filesystem is asked about the candidate, then about the workspace; what
/// it answers is not stated, but the result is the resolution for its
/// answers on those paths.
pub fn resolve_sandbox_path(user_path: &str, workspace_root: &str) -> (res: Result<
    String,
    SandboxError,
>)
    ensures
        exists|
            ex: bool,
            cc: Result<Seq<char>, Seq<char>>,
            cp: Result<Seq<char>, Seq<char>>,
            cw: Result<Seq<char>, Seq<char>>,
        |
            answers_fit(user_path@, workspace_root@, ex, cc, cp, cw) && #[trigger] resolution(
                user_path@,
                workspace_root@,
                ex,
                cc,
                cp,
                cw,
            ) == resolved_view(res),
        res matches Ok(p) ==> exists|w: Seq<char>|
            canonical_answer(workspace_root@, Ok(w)) && #[trigger] component_prefix(p@, w),
{
    let cs = chars_of(user_path);
    if contains_char(&cs, '\0') || contains_parent_component(user_path) {
        let res = resolve_with_answers(user_path, workspace_root, false, no_answer(), no_answer(), no_answer());
        return res;
    }
    let candidate = sandbox_candidate(user_path, workspace_root);
    let ex = path_exists(candidate.as_str());
    let mut cc: Result<String, String> = no_answer();
    let mut cp: Result<String, String> = no_answer();
    if ex {
        cc = canonical_path(candidate.as_str());
    } else {
        match path_parent(candidate.as_str()) {
            Some(p) => {
                if !p.as_str().is_empty() {
                    cp = canonical_path(p.as_str());
                }
            },
            None => {},
        }
    }
    let mut cw: Result<String, String> = no_answer();
    if candidate_step(user_path, workspace_root, ex, &cc, &cp).is_ok() {
        cw = canonical_path(workspace_root);
    }
    let ghost (gc, gp, gw) = (answer_view(cc), answer_view(cp), answer_view(cw));
    let res = resolve_with_answers(user_path, workspace_root, ex, cc, cp, cw);
    proof {
        assert(answers_fit(user_path@, workspace_root@, ex, gc, gp, gw));
        if res is Ok {
            assert(canonical_answer(workspace_root@, gw));
        }
    }
    res
}

/// The dangerous pattern that a command contains, checked in this order:
/// a backtick, `$(`, `${`, `../` or `..\`, a null byte.
pub open spec fn danger_of(command: Seq<char>) -> Option<Seq<char>> {
    if has_char(command, '`') {
        Some("backtick command substitution"@)
    } else if has_piece(command, "$("@) {
        Some("$() command substitution"@)
    } else if has_piece(command, "${"@) {
        Some("${} variable expansion"@)
    } else if has_piece(command, "../"@) || has_piece(command, "..\\"@) {
        Some("path traversal sequence"@)
    } else if has_char(command, '\0') {
        Some("null byte"@)
    } else {
        None
    }
}

/// The shell metacharacters in `command` that could be used to bypass the
/// sandbox, described, or `None`.
pub fn contains_dangerous_metacharacters(command: &str) -> (res: Option<String>)
    ensures
        match res {
            Some(r) => danger_of(command@) == Some(r@),
            None => danger_of(command@) is None,
        },
{
    let cs = chars_of(command);
    if contains_char(&cs, '`') {
        return Some("backtick command substitution".to_owned());
    }
    if contains_piece(&cs, &chars_of("$(")) {
        return Some("$() command substitution".to_owned());
    }
    if contains_piece(&cs, &chars_of("${")) {
        return Some("${} variable expansion".to_owned());
    }
    if contains_piece(&cs, &chars_of("../")) || contains_piece(&cs, &chars_of("..\\")) {
        return Some("path traversal sequence".to_owned());
    }
    if contains_char(&cs, '\0') {
        return Some("null byte".to_owned());
    }
    None
}

/// The outcome of `validate_shell_command`.
pub open spec fn shell_check(command: Seq<char>) -> Result<(), SandboxErrorView> {
    match danger_of(command) {
        Some(reason) => Err(
            SandboxErrorView::DangerousCommand("Command contains dangerous pattern: "@ + reason),
        ),
        None => Ok(()),
    }
}

/// Validates that a shell command holds no dangerous metacharacters.
pub fn validate_shell_command(command: &str) -> (res: Result<(), SandboxError>)
    ensures
        match res {
            Ok(()) => shell_check(command@) is Ok,
            Err(e) => shell_check(command@) == Err::<(), SandboxErrorView>(e@),
        },
{
    if let Some(reason) = contains_dangerous_metacharacters(command) {
        let mut m = "Command contains dangerous pattern: ".to_owned();
        m.append(reason.as_str());
        return Err(SandboxError::DangerousCommand(m));
    }
    Ok(())
}

/// A resolved path never leaves the workspace: whatever the filesystem
/// answers, a successful resolution is the canonical path of the candidate,
/// and it lies inside the canonical form of the workspace, so a symbolic
/// link that points outside is refused.
pub proof fn law_resolution_stays_inside(
    user_path: Seq<char>,
    workspace: Seq<char>,
    exists: bool,
    canon_candidate: Result<Seq<char>, Seq<char>>,
    canon_parent: Result<Seq<char>, Seq<char>>,
    canon_workspace: Result<Seq<char>, Seq<char>>,
)
    ensures
        resolution(user_path, workspace, exists, canon_candidate, canon_parent, canon_workspace) matches Ok(c)
            ==> canon_workspace matches Ok(w) && component_prefix(c, w),
{
}

/// An existing file whose canonical path lies inside the canonical
/// workspace resolves to that canonical path.
pub proof fn law_existing_inside_resolves(
    user_path: Seq<char>,
    workspace: Seq<char>,
    c: Seq<char>,
    canon_parent: Result<Seq<char>, Seq<char>>,
    w: Seq<char>,
)
    requires
        plain_path(user_path),
        component_prefix(c, w),
    ensures
        resolution(user_path, workspace, true, Ok(c), canon_parent, Ok(w)) == Ok::<
            Seq<char>,
            SandboxErrorView,
        >(c),
{
}

} // verus!
