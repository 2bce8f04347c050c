//! Workspace sandbox for bash command execution: commands are checked for
//! dangerous patterns and the paths that they name must stay in the workspace.
use vstd::prelude::*;

pub mod error;
pub mod fs;

pub use error::{SandboxError, SandboxErrorView};

use crate::path::{canonical_answer, canonical_path, has_parent_component};
use crate::render::{int_text, push_int};
use crate::tools::{output_text, process_text, reported_code, RunOutcome};
use crate::text::{begins_with, chars_of, has_char, split_all, split_each, split_words, starts_with, words};
use fs::{answers_fit, resolution, resolve_sandbox_path, resolved_view, shell_check, validate_shell_command};

verus! {

/// Default timeout for sandboxed commands, in seconds.
pub const DEFAULT_COMMAND_TIMEOUT_SECS: u64 = 60;

/// The parts of a command that may name paths: its words, split further at
/// `,` and then at `;`.
pub open spec fn command_parts(command: Seq<char>) -> Seq<Seq<char>> {
    split_all(split_all(words(command), ','), ';')
}

/// A part is taken for a path when it starts with `/`, `./` or `../`.
pub open spec fn path_start(p: Seq<char>) -> bool {
    begins_with(p, "/"@) || begins_with(p, "./"@) || begins_with(p, "../"@)
}

/// A resolution failure that rejects the command: traversal or escape.
pub open spec fn fatal(r: Result<Seq<char>, SandboxErrorView>) -> bool {
    r matches Err(e) && (e is PathTraversal || e is OutsideWorkspace)
}

/// `r` is a result that resolving `p` in `workspace` can give, for some
/// answers that the filesystem gives on the paths that resolution asks about.
pub open spec fn may_resolve(
    workspace: Seq<char>,
    p: Seq<char>,
    r: Result<Seq<char>, SandboxErrorView>,
) -> bool {
    exists|
        ex: bool,
        cc: Result<Seq<char>, Seq<char>>,
        cp: Result<Seq<char>, Seq<char>>,
        cw: Result<Seq<char>, Seq<char>>,
    | answers_fit(p, workspace, ex, cc, cp, cw) && #[trigger] resolution(p, workspace, ex, cc, cp, cw) == r
}

/// Resolving `p` can give a result that does not reject the command.
pub open spec fn may_pass(workspace: Seq<char>, p: Seq<char>) -> bool {
    exists|r: Result<Seq<char>, SandboxErrorView>| #[trigger] may_resolve(workspace, p, r) && !fatal(r)
}

/// `r` is a result that the path checks of `command` can give: the parts
/// that start like paths are resolved in order, and the first that is
/// rejected gives the result.
pub open spec fn command_paths_verdict(
    workspace: Seq<char>,
    command: Seq<char>,
    r: Result<(), SandboxErrorView>,
) -> bool {
    let ps = command_parts(command);
    match r {
        Ok(()) => forall|i: int|
            0 <= i < ps.len() && path_start(#[trigger] ps[i]) ==> may_pass(workspace, ps[i]),
        Err(e) => exists|k: int|
            0 <= k < ps.len() && path_start(#[trigger] ps[k]) && may_resolve(workspace, ps[k], Err(e))
                && fatal(Err(e)) && forall|i: int|
                0 <= i < k && path_start(#[trigger] ps[i]) ==> may_pass(workspace, ps[i]),
    }
}

/// The view of a check's result.
pub open spec fn check_view(r: Result<(), SandboxError>) -> Result<(), SandboxErrorView> {
    match r {
        Ok(()) => Ok(()),
        Err(e) => Err(e@),
    }
}

/// Sandbox configuration for bash execution.
#[derive(Debug)]
pub struct BashSandbox {
    /// Workspace directory (allowed for file operations), canonical.
    workspace: String,
    /// Command timeout in seconds.
    command_timeout_secs: u64,
}

impl BashSandbox {
    /// Creates a bash sandbox over the canonical form of `workspace`.
    pub fn new(workspace: &str) -> (res: Result<Self, SandboxError>)
        ensures
            res matches Ok(s) ==> s.command_timeout_secs() == DEFAULT_COMMAND_TIMEOUT_SECS
                && crate::path::is_absolute(s.workspace_view())
                && canonical_answer(workspace@, Ok(s.workspace_view())),
            res matches Err(e) ==> exists|m: Seq<char>|
                canonical_answer(workspace@, Err(m)) && #[trigger] e@ == SandboxErrorView::Other(
                    "Failed to canonicalize workspace: "@ + m,
                ),
    {
        match canonical_path(workspace) {
            Ok(w) => Ok(BashSandbox { workspace: w, command_timeout_secs: DEFAULT_COMMAND_TIMEOUT_SECS }),
            Err(e) => {
                let mut m = "Failed to canonicalize workspace: ".to_owned();
                m.append(e.as_str());
                let res = SandboxError::Other(m);
                assert(res@ == SandboxErrorView::Other("Failed to canonicalize workspace: "@ + e@));
                Err(res)
            },
        }
    }

    /// The workspace directory.
    pub closed spec fn workspace_view(&self) -> Seq<char> {
        self.workspace@
    }

    /// The timeout of a command, in seconds.
    pub closed spec fn command_timeout_secs(&self) -> u64 {
        self.command_timeout_secs
    }

    /// The workspace directory.
    pub fn workspace(&self) -> (res: &str)
        ensures
            res@ == self.workspace_view(),
    {
        self.workspace.as_str()
    }

    /// The timeout of a command, in seconds.
    pub fn command_timeout(&self) -> (res: u64)
        ensures
            res == self.command_timeout_secs(),
    {
        self.command_timeout_secs
    }

    /// Validates that `path` resolves inside the workspace, and resolves it.
    pub fn validate_path(&self, path: &str) -> (res: Result<String, SandboxError>)
        ensures
            may_resolve(self.workspace_view(), path@, resolved_view(res)),
    {
        resolve_sandbox_path(path, self.workspace.as_str())
    }

    /// The checks that precede running `command`: no dangerous pattern, and
    /// no path named in it outside the workspace.
    pub fn check_command(&self, command: &str) -> (res: Result<(), SandboxError>)
        ensures
            shell_check(command@) is Err ==> check_view(res) == shell_check(command@),
            shell_check(command@) is Ok ==> command_paths_verdict(
                self.workspace_view(),
                command@,
                check_view(res),
            ),
    {
        match validate_shell_command(command) {
            Ok(()) => {},
            Err(e) => {
                return Err(e);
            },
        }
        self.validate_command_paths(command)
    }

    /// Resolves in order the parts of `command` that look like paths; a
    /// traversal or an escape from the workspace rejects the command, other
    /// resolution errors are ignored.
    fn validate_command_paths(&self, command: &str) -> (res: Result<(), SandboxError>)
        ensures
            command_paths_verdict(self.workspace_view(), command@, check_view(res)),
    {
        let cs = chars_of(command);
        let ws = split_words(&cs);
        let by_comma = split_each(&ws, Ghost(words(command@)), ',');
        let parts = split_each(&by_comma, Ghost(split_all(words(command@), ',')), ';');
        let ghost ps = command_parts(command@);
        let slash = chars_of("/");
        let dot_slash = chars_of("./");
        let dot_dot_slash = chars_of("../");
        let mut i: usize = 0;
        while i < parts.len()
            invariant
                crate::text::views_match(parts@, ps),
                ps == command_parts(command@),
                slash@ == "/"@,
                dot_slash@ == "./"@,
                dot_dot_slash@ == "../"@,
                i <= parts@.len(),
                forall|k: int|
                    0 <= k < i && path_start(#[trigger] ps[k]) ==> may_pass(self.workspace_view(), ps[k]),
            decreases parts.len() - i,
        {
            let part = parts[i].as_slice();
            if starts_with(part, &slash) || starts_with(part, &dot_slash) || starts_with(
                part,
                &dot_dot_slash,
            ) {
                if parts[i].len() > 0 && parts[i][0] == '-' {
                    proof {
                        reveal_strlit("/");
                        reveal_strlit("./");
                        reveal_strlit("../");
                        if begins_with(part@, "/"@) {
                            assert(part@.subrange(0, 1)[0] == part@[0]);
                        } else if begins_with(part@, "./"@) {
                            assert(part@.subrange(0, 2)[0] == part@[0]);
                        } else {
                            assert(part@.subrange(0, 3)[0] == part@[0]);
                        }
                    }
                    i = i + 1;
                    continue;
                }
                let p = crate::text::string_of(part);
                let r = self.validate_path(p.as_str());
                match r {
                    Ok(_) => {
                        assert(may_resolve(self.workspace_view(), ps[i as int], resolved_view(r)));
                    },
                    Err(e) => {
                        if matches!(e, SandboxError::PathTraversal(_)) || matches!(
                            e,
                            SandboxError::OutsideWorkspace { .. }
                        ) {
                            return Err(e);
                        }
                        assert(may_resolve(self.workspace_view(), ps[i as int], resolved_view(r)));
                    },
                }
            }
            i = i + 1;
        }
        Ok(())
    }
}

/// The process that runs a command in the sandbox.
#[derive(Debug, Clone)]
pub struct SandboxInvocation {
    /// The executable.
    pub program: String,
    /// Its arguments.
    pub args: Vec<String>,
    /// The directory it runs in.
    pub current_dir: String,
    /// Its whole environment.
    pub env: Vec<(String, String)>,
    /// The timeout, in seconds.
    pub timeout_secs: u64,
}

/// What running a command in the sandbox returns for each way its process
/// ended.
pub open spec fn sandbox_outcome(run: RunOutcome) -> Result<Seq<char>, SandboxErrorView> {
    match run {
        RunOutcome::TimedOut => Err(SandboxErrorView::Timeout),
        RunOutcome::Failed(_) => Err(SandboxErrorView::Io),
        RunOutcome::Finished(o) => if o.success {
            Ok(output_text(o))
        } else {
            Err(SandboxErrorView::Other(
                "Command failed with exit code "@ + int_text(reported_code(o) as int) + ": "@ + output_text(o),
            ))
        },
    }
}

/// The view of a run's result.
pub open spec fn run_view(r: Result<String, SandboxError>) -> Result<Seq<char>, SandboxErrorView> {
    match r {
        Ok(s) => Ok(s@),
        Err(e) => Err(e@),
    }
}

impl BashSandbox {
    /// The process that runs `command`: `bash -c` in the workspace, with an
    /// environment of `PATH` (the value `path_var`), and `HOME` and `PWD`
    /// set to the workspace.
    pub fn invocation(&self, command: &str, path_var: &str) -> (res: SandboxInvocation)
        ensures
            res.program@ == "bash"@,
            res.args@.len() == 2,
            res.args@[0]@ == "-c"@,
            res.args@[1]@ == command@,
            res.current_dir@ == self.workspace_view(),
            res.env@.len() == 3,
            res.env@[0].0@ == "PATH"@ && res.env@[0].1@ == path_var@,
            res.env@[1].0@ == "HOME"@ && res.env@[1].1@ == self.workspace_view(),
            res.env@[2].0@ == "PWD"@ && res.env@[2].1@ == self.workspace_view(),
            res.timeout_secs == self.command_timeout_secs(),
    {
        let mut args: Vec<String> = Vec::new();
        args.push("-c".to_owned());
        args.push(command.to_owned());
        let mut env: Vec<(String, String)> = Vec::new();
        env.push(("PATH".to_owned(), path_var.to_owned()));
        env.push(("HOME".to_owned(), self.workspace.clone()));
        env.push(("PWD".to_owned(), self.workspace.clone()));
        SandboxInvocation {
            program: "bash".to_owned(),
            args,
            current_dir: self.workspace.clone(),
            env,
            timeout_secs: self.command_timeout_secs,
        }
    }

    /// What running a command returns when its process ended as `run`
    /// says (see `sandbox_outcome`).
    pub fn outcome(&self, run: RunOutcome) -> (res: Result<String, SandboxError>)
        ensures
            run_view(res) == sandbox_outcome(run),
    {
        match run {
            RunOutcome::TimedOut => Err(SandboxError::Timeout),
            RunOutcome::Failed(e) => Err(SandboxError::Io(e)),
            RunOutcome::Finished(o) => {
                let text = process_text(&o);
                if o.success {
                    Ok(text)
                } else {
                    let code = match o.code {
                        Some(c) => c,
                        None => -1i32,
                    };
                    let mut m = "Command failed with exit code ".to_owned();
                    push_int(&mut m, code as i64);
                    m.append(": ");
                    m.append(text.as_str());
                    Err(SandboxError::Other(m))
                }
            },
        }
    }
}

/// A command that names a path starting like a path and going up with
/// `..` is refused, whatever the filesystem answers.
pub proof fn law_bash_traversal_refused(workspace: Seq<char>, command: Seq<char>, k: int, r: Result<(), SandboxErrorView>)
    requires
        0 <= k < command_parts(command).len(),
        path_start(command_parts(command)[k]),
        has_parent_component(command_parts(command)[k]),
        !has_char(command_parts(command)[k], '\0'),
        command_paths_verdict(workspace, command, r),
    ensures
        r is Err,
{
    let p = command_parts(command)[k];
    if r is Ok {
        assert(may_pass(workspace, p));
        let r2 = choose|r2: Result<Seq<char>, SandboxErrorView>| #[trigger] may_resolve(workspace, p, r2) && !fatal(r2);
        let (ex, cc, cp, cw) = choose|ex: bool, cc: Result<Seq<char>, Seq<char>>, cp: Result<Seq<char>, Seq<char>>, cw: Result<Seq<char>, Seq<char>>| answers_fit(p, workspace, ex, cc, cp, cw) && #[trigger] resolution(p, workspace, ex, cc, cp, cw) == r2;
        assert(resolution(p, workspace, ex, cc, cp, cw) == Err::<Seq<char>, SandboxErrorView>(SandboxErrorView::PathTraversal(p)));
    }
}

/// The path checks of a command reject it only for a traversal or an
/// escape from the workspace: any other error of resolving a path, such as
/// a parent directory that does not exist yet, is never the verdict.
pub proof fn law_path_rejection_is_traversal_or_escape(
    workspace: Seq<char>,
    command: Seq<char>,
    e: SandboxErrorView,
)
    requires
        command_paths_verdict(workspace, command, Err(e)),
    ensures
        e is PathTraversal || e is OutsideWorkspace,
{
}

/// When no part of a command that starts like a path can resolve to a
/// traversal or to an escape from the workspace, whatever the filesystem
/// answers, the path checks accept the command.
pub proof fn law_paths_accepted_without_escape(
    workspace: Seq<char>,
    command: Seq<char>,
    r: Result<(), SandboxErrorView>,
)
    requires
        command_paths_verdict(workspace, command, r),
        forall|i: int, e: SandboxErrorView|
            0 <= i < command_parts(command).len() && path_start(command_parts(command)[i])
                && #[trigger] may_resolve(workspace, command_parts(command)[i], Err(e)) ==> !(
            e is PathTraversal || e is OutsideWorkspace),
    ensures
        r is Ok,
{
    if let Err(e) = r {
        law_path_rejection_is_traversal_or_escape(workspace, command, e);
    }
}

} // verus!
