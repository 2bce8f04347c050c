//! Finding bash: the variables that may name it, and the verdict on
//! running `bash --version`.
use vstd::prelude::*;

use crate::sandbox::error::io_error_text;
use crate::text::{begins_with, lemma_begins_with_self, prefixed};

verus! {

/// Errors of finding or running bash.
#[derive(Debug, Clone, PartialEq, Eq)]
pub enum BashError {
    /// The bash process could not be executed.
    Execute(String),
    /// `bash --version` failed for the bash at the given path.
    VersionCheck(String),
    /// `bash --version` of the default bash exited with failure.
    DefaultBashFailed,
}

/// A bash error's message.
pub open spec fn bash_error_text(e: BashError) -> Seq<char> {
    match e {
        BashError::Execute(p) => "Failed to execute bash at: "@ + p@,
        BashError::VersionCheck(p) => "bash --version failed at: "@ + p@,
        BashError::DefaultBashFailed => "default bash --version returned non-zero exit status"@,
    }
}

impl BashError {
    /// The error's message.
    pub fn message(&self) -> (res: String)
        ensures
            res@ == bash_error_text(*self),
    {
        match self {
            BashError::Execute(p) => prefixed("Failed to execute bash at: ", p.as_str()),
            BashError::VersionCheck(p) => prefixed("bash --version failed at: ", p.as_str()),
            BashError::DefaultBashFailed => "default bash --version returned non-zero exit status".to_owned(),
        }
    }
}

impl From<std::io::Error> for BashError {
    /// An execution error with the I/O error's text, which is not stated.
    fn from(e: std::io::Error) -> (res: Self)
        ensures
            res is Execute,
    {
        BashError::Execute(io_error_text(&e))
    }
}

impl vstd::std_specs::convert::FromSpecImpl<std::io::Error> for BashError {
    /// The text of the I/O error is not stated, so `from` claims nothing
    /// through this trait beyond its own `ensures`.
    open spec fn obeys_from_spec() -> bool {
        false
    }

    open spec fn from_spec(v: std::io::Error) -> BashError {
        vstd::pervasive::arbitrary()
    }
}

/// The environment variables that may name bash, in the order they are
/// tried.
pub fn bash_path_variables() -> (res: Vec<String>)
    ensures
        res@.len() == 3,
        res@[0]@ == "NEOCO_GIT_BASH_PATH"@,
        res@[1]@ == "CLAUDE_CODE_GIT_BASH_PATH"@,
        res@[2]@ == "OPENCODE_GIT_BASH_PATH"@,
{
    let mut v: Vec<String> = Vec::new();
    v.push("NEOCO_GIT_BASH_PATH".to_owned());
    v.push("CLAUDE_CODE_GIT_BASH_PATH".to_owned());
    v.push("OPENCODE_GIT_BASH_PATH".to_owned());
    v
}

/// Whether a variable's value names a path: it is set and not empty.
pub open spec fn set_path(v: Option<String>) -> bool {
    v matches Some(p) && p@.len() > 0
}

/// The bash path given by the values of the variables, in order: the first
/// one that is set and not empty.
pub fn first_set_path(values: &Vec<Option<String>>) -> (res: Option<String>)
    ensures
        match res {
            Some(p) => exists|i: int|
                0 <= i < values@.len() && #[trigger] set_path(values@[i]) && values@[i] == Some(p)
                    && forall|j: int| 0 <= j < i ==> !set_path(#[trigger] values@[j]),
            None => forall|i: int| 0 <= i < values@.len() ==> !set_path(#[trigger] values@[i]),
        },
{
    let mut i: usize = 0;
    while i < values.len()
        invariant
            i <= values@.len(),
            forall|j: int| 0 <= j < i ==> !set_path(#[trigger] values@[j]),
        decreases values.len() - i,
    {
        if let Some(p) = &values[i] {
            if !p.as_str().is_empty() {
                assert(set_path(values@[i as int]));
                return Some(p.clone());
            }
        }
        i = i + 1;
    }
    None
}

/// The verdict on bash, from the path that was found (if any) and how
/// `bash --version` ran: an I/O error, or whether it exited with success.
pub fn version_verdict(path: &Option<String>, run: Result<bool, std::io::Error>) -> (res: Result<(), BashError>)
    ensures
        run is Err ==> res matches Err(BashError::Execute(_)),
        run matches Ok(true) ==> res is Ok,
        run matches Ok(false) ==> match path {
            Some(p) => res matches Err(BashError::VersionCheck(q)) && q@ == p@,
            None => res matches Err(BashError::DefaultBashFailed),
        },
{
    match run {
        Err(e) => Err(BashError::from(e)),
        Ok(true) => Ok(()),
        Ok(false) => match path {
            Some(p) => Err(BashError::VersionCheck(p.clone())),
            None => Err(BashError::DefaultBashFailed),
        },
    }
}

} // verus!
