//! The bash tool: the command it runs for a call, and what the call returns
//! for each way the process can end.
use vstd::prelude::*;

pub mod bash;
pub mod sandbox;

use crate::render::{int_text, nat_text, push_int, push_nat};
use crate::sandbox::error::io_error_text;
use crate::text::{begins_with, lemma_begins_with_self, prefixed};

verus! {

/// Default timeout of a command, in seconds.
pub const COMMAND_TIMEOUT_SECS: u64 = 60;

/// The text that `String::from_utf8_lossy` makes of `bytes`.
pub uninterp spec fn utf8_lossy(bytes: Seq<u8>) -> Seq<char>;

/// Calls `String::from_utf8_lossy`; the result is named `utf8_lossy`.
#[verifier::external_body]
pub(crate) fn lossy_text(bytes: &Vec<u8>) -> (res: String)
    ensures
        res@ == utf8_lossy(bytes@),
{
    String::from_utf8_lossy(bytes).to_string()
}

/// How a process that ran to its end ended.
#[derive(Debug, Clone)]
pub struct ProcessOutput {
    /// Whether it exited with success.
    pub success: bool,
    /// Its exit code; `None` when a signal ended it.
    pub code: Option<i32>,
    /// What it wrote to standard output.
    pub stdout: Vec<u8>,
    /// What it wrote to standard error.
    pub stderr: Vec<u8>,
}

/// How running a process under a timeout ended.
#[derive(Debug)]
pub enum RunOutcome {
    /// The timeout elapsed first.
    TimedOut,
    /// The process could not be run.
    Failed(std::io::Error),
    /// The process ended.
    Finished(ProcessOutput),
}

/// What a finished process wrote: its standard output, then its standard
/// error, each decoded as `from_utf8_lossy` does.
pub open spec fn output_text(o: ProcessOutput) -> Seq<char> {
    utf8_lossy(o.stdout@) + utf8_lossy(o.stderr@)
}

/// The exit code to report: the process's, or -1 when it has none.
pub open spec fn reported_code(o: ProcessOutput) -> i32 {
    match o.code {
        Some(c) => c,
        None => -1i32,
    }
}

/// The output of a finished process as text (see `output_text`).
pub(crate) fn process_text(o: &ProcessOutput) -> (res: String)
    ensures
        res@ == output_text(*o),
{
    let mut res = lossy_text(&o.stdout);
    let e = lossy_text(&o.stderr);
    res.append(e.as_str());
    res
}

/// The arguments of a call of the bash tool.
#[derive(Debug, Clone)]
pub struct CommandArgs {
    command: String,
    timeout: Option<u64>,
}

impl CommandArgs {
    /// Arguments that run `command`, with the given timeout in seconds or
    /// the default one.
    pub fn new(command: String, timeout: Option<u64>) -> (res: Self)
        ensures
            res.command_view() == command@,
            res.timeout_view() == timeout,
    {
        CommandArgs { command, timeout }
    }

    /// The command.
    pub closed spec fn command_view(&self) -> Seq<char> {
        self.command@
    }

    /// The timeout asked for, in seconds.
    pub closed spec fn timeout_view(&self) -> Option<u64> {
        self.timeout
    }

    /// The command.
    pub fn command(&self) -> (res: &str)
        ensures
            res@ == self.command_view(),
    {
        self.command.as_str()
    }

    /// The timeout of the call, in seconds: the one asked for, or the default.
    pub fn timeout_secs(&self) -> (res: u64)
        ensures
            res == match self.timeout_view() {
                Some(t) => t,
                None => COMMAND_TIMEOUT_SECS,
            },
    {
        match self.timeout {
            Some(t) => t,
            None => COMMAND_TIMEOUT_SECS,
        }
    }
}

/// Errors of a call of the bash tool.
#[derive(Debug)]
pub enum CommandError {
    /// The command could not be executed.
    ExecuteError(std::io::Error),
    /// The command did not finish within the given seconds.
    Timeout(u64),
    /// The command failed with the exit code and its output.
    ExitError(i32, String),
}

/// A `CommandError` without the I/O error it may hold.
pub enum CommandErrorView {
    ExecuteError,
    Timeout(u64),
    ExitError(i32, Seq<char>),
}

impl View for CommandError {
    type V = CommandErrorView;

    open spec fn view(&self) -> CommandErrorView {
        match self {
            CommandError::ExecuteError(_) => CommandErrorView::ExecuteError,
            CommandError::Timeout(n) => CommandErrorView::Timeout(*n),
            CommandError::ExitError(c, s) => CommandErrorView::ExitError(*c, s@),
        }
    }
}

/// The known part of a command error's message: all of it, but for the text
/// of an I/O error.
pub open spec fn command_error_text(e: CommandErrorView) -> Seq<char> {
    match e {
        CommandErrorView::ExecuteError => "Failed to execute command: "@,
        CommandErrorView::Timeout(n) => "Command timed out after "@ + nat_text(n as nat) + " seconds"@,
        CommandErrorView::ExitError(c, s) => "Command failed with exit code "@ + int_text(c as int) + ": "@ + s,
    }
}

impl CommandError {
    /// The error's message.
    pub fn message(&self) -> (res: String)
        ensures
            begins_with(res@, command_error_text(self@)),
            !(self@ is ExecuteError) ==> res@ == command_error_text(self@),
    {
        let res = match self {
            CommandError::ExecuteError(e) => {
                let t = io_error_text(e);
                let res = prefixed("Failed to execute command: ", t.as_str());
                assert(res@.subrange(0, "Failed to execute command: "@.len() as int)
                    =~= "Failed to execute command: "@);
                res
            },
            CommandError::Timeout(n) => {
                let mut res = "Command timed out after ".to_owned();
                push_nat(&mut res, *n);
                res.append(" seconds");
                res
            },
            CommandError::ExitError(c, s) => {
                let mut res = "Command failed with exit code ".to_owned();
                push_int(&mut res, *c as i64);
                res.append(": ");
                res.append(s.as_str());
                res
            },
        };
        proof {
            lemma_begins_with_self(res@);
        }
        res
    }
}

/// What a call of the bash tool returns for each way the process ended.
pub open spec fn shell_outcome(run: RunOutcome, timeout_secs: u64) -> Result<Seq<char>, CommandErrorView> {
    match run {
        RunOutcome::TimedOut => Err(CommandErrorView::Timeout(timeout_secs)),
        RunOutcome::Failed(_) => Err(CommandErrorView::ExecuteError),
        RunOutcome::Finished(o) => if o.success {
            Ok(output_text(o))
        } else {
            Err(CommandErrorView::ExitError(reported_code(o), output_text(o)))
        },
    }
}

/// The view of a call's result.
pub open spec fn call_view(r: Result<String, CommandError>) -> Result<Seq<char>, CommandErrorView> {
    match r {
        Ok(s) => Ok(s@),
        Err(e) => Err(e@),
    }
}

/// The process that a call of the bash tool runs.
#[derive(Debug, Clone)]
pub struct ShellInvocation {
    /// The bash executable.
    pub program: String,
    /// Its arguments.
    pub args: Vec<String>,
    /// The timeout, in seconds.
    pub timeout_secs: u64,
}

/// The tool that runs bash commands.
#[derive(Debug, Clone, Copy)]
pub struct ShellTool;

impl ShellTool {
    /// The tool.
    pub fn new() -> (res: Self) {
        ShellTool
    }

    /// The tool's name.
    pub fn name(&self) -> (res: String)
        ensures
            res@ == "bash"@,
    {
        "bash".to_owned()
    }

    /// The tool's description, with the additional instructions `prompt`
    /// on a line of their own when there are any.
    pub fn description(&self, prompt: &str) -> (res: String)
        ensures
            res@ == "Execute a bash command and return the output. Use this tool to run shell commands, scripts, or system operations."@
                + if prompt@.len() == 0 {
                seq![]
            } else {
                "\nAdditional instructions: "@ + prompt@ + "\n"@
            },
    {
        let mut description = "Execute a bash command and return the output. Use this tool to run shell commands, scripts, or system operations.".to_owned();
        let ghost base = description@;
        if !prompt.is_empty() {
            description.append("\nAdditional instructions: ");
            description.append(prompt);
            description.append("\n");
            assert(description@ =~= base + ("\nAdditional instructions: "@ + prompt@ + "\n"@));
        } else {
            assert(description@ =~= base + seq![]);
        }
        description
    }

    /// The process that a call with `args` runs: `bash_path` (or `bash`)
    /// with `-c` and the command, under the call's timeout.
    pub fn invocation(&self, args: &CommandArgs, bash_path: Option<String>) -> (res: ShellInvocation)
        ensures
            res.program@ == match bash_path {
                Some(p) => p@,
                None => "bash"@,
            },
            res.args@.len() == 2,
            res.args@[0]@ == "-c"@,
            res.args@[1]@ == args.command_view(),
            res.timeout_secs == match args.timeout_view() {
                Some(t) => t,
                None => COMMAND_TIMEOUT_SECS,
            },
    {
        let program = match bash_path {
            Some(p) => p,
            None => "bash".to_owned(),
        };
        let mut a: Vec<String> = Vec::new();
        a.push("-c".to_owned());
        a.push(args.command().to_owned());
        ShellInvocation { program, args: a, timeout_secs: args.timeout_secs() }
    }

    /// What a call returns when its process, run under a timeout of
    /// `timeout_secs` seconds, ended as `run` says (see `shell_outcome`).
    pub fn outcome(&self, run: RunOutcome, timeout_secs: u64) -> (res: Result<String, CommandError>)
        ensures
            call_view(res) == shell_outcome(run, timeout_secs),
    {
        match run {
            RunOutcome::TimedOut => Err(CommandError::Timeout(timeout_secs)),
            RunOutcome::Failed(e) => Err(CommandError::ExecuteError(e)),
            RunOutcome::Finished(o) => {
                let text = process_text(&o);
                if o.success {
                    Ok(text)
                } else {
                    let code = match o.code {
                        Some(c) => c,
                        None => -1,
                    };
                    Err(CommandError::ExitError(code, text))
                }
            },
        }
    }
}

impl Default for ShellTool {
    fn default() -> (res: Self) {
        ShellTool
    }
}

} // verus!
