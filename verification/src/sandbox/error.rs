//! Errors of the workspace sandbox.
use vstd::prelude::*;

verus! {

#[verifier::external_type_specification]
#[verifier::external_body]
pub struct ExIoError(std::io::Error);

/// Errors that can occur in the sandbox.
#[derive(Debug)]
pub enum SandboxError {
    /// Path traversal attempt detected.
    PathTraversal(String),
    /// Access to a path outside the workspace.
    OutsideWorkspace {
        /// The requested path.
        path: String,
        /// The workspace root.
        workspace: String,
    },
    /// Invalid path format.
    InvalidPath(String),
    /// Execution timeout.
    Timeout,
    /// The shell command contains dangerous metacharacters.
    DangerousCommand(String),
    /// IO error.
    Io(std::io::Error),
    /// Other errors.
    Other(String),
}

/// A `SandboxError` with its texts as character sequences.
pub enum SandboxErrorView {
    PathTraversal(Seq<char>),
    OutsideWorkspace { path: Seq<char>, workspace: Seq<char> },
    InvalidPath(Seq<char>),
    Timeout,
    DangerousCommand(Seq<char>),
    Io,
    Other(Seq<char>),
}

impl View for SandboxError {
    type V = SandboxErrorView;

    open spec fn view(&self) -> SandboxErrorView {
        match self {
            SandboxError::PathTraversal(s) => SandboxErrorView::PathTraversal(s@),
            SandboxError::OutsideWorkspace { path, workspace } => SandboxErrorView::OutsideWorkspace {
                path: path@,
                workspace: workspace@,
            },
            SandboxError::InvalidPath(s) => SandboxErrorView::InvalidPath(s@),
            SandboxError::Timeout => SandboxErrorView::Timeout,
            SandboxError::DangerousCommand(s) => SandboxErrorView::DangerousCommand(s@),
            SandboxError::Io(_) => SandboxErrorView::Io,
            SandboxError::Other(s) => SandboxErrorView::Other(s@),
        }
    }
}

/// Calls `ToString::to_string` on an I/O error. The text is not stated.
#[verifier::external_body]
pub(crate) fn io_error_text(e: &std::io::Error) -> String {
    e.to_string()
}

/// The text that `Display` shows for each error other than `Io`, whose
/// text is that of the I/O error after `IO error: `.
pub open spec fn sandbox_error_text(e: SandboxErrorView) -> Seq<char> {
    match e {
        SandboxErrorView::PathTraversal(p) => "Path traversal denied: '"@ + p + "' contains '..'"@,
        SandboxErrorView::OutsideWorkspace { path, workspace } => "Access denied: path '"@ + path
            + "' is outside workspace '"@ + workspace + "'"@,
        SandboxErrorView::InvalidPath(m) => "Invalid path: "@ + m,
        SandboxErrorView::Timeout => "Execution timeout"@,
        SandboxErrorView::DangerousCommand(c) => "Dangerous shell command detected: "@ + c,
        SandboxErrorView::Io => "IO error: "@,
        SandboxErrorView::Other(m) => m,
    }
}

impl SandboxError {
    /// The error's message.
    pub fn message(&self) -> (res: String)
        ensures
            !(self@ is Io) ==> res@ == sandbox_error_text(self@),
            self@ is Io ==> sandbox_error_text(self@).len() <= res@.len()
                && res@.subrange(0, sandbox_error_text(self@).len() as int) == sandbox_error_text(self@),
    {
        match self {
            SandboxError::PathTraversal(p) => {
                let mut res = "Path traversal denied: '".to_owned();
                res.append(p.as_str());
                res.append("' contains '..'");
                res
            },
            SandboxError::OutsideWorkspace { path, workspace } => {
                let mut res = "Access denied: path '".to_owned();
                res.append(path.as_str());
                res.append("' is outside workspace '");
                res.append(workspace.as_str());
                res.append("'");
                res
            },
            SandboxError::InvalidPath(m) => {
                let mut res = "Invalid path: ".to_owned();
                res.append(m.as_str());
                res
            },
            SandboxError::Timeout => "Execution timeout".to_owned(),
            SandboxError::DangerousCommand(c) => {
                let mut res = "Dangerous shell command detected: ".to_owned();
                res.append(c.as_str());
                res
            },
            SandboxError::Io(e) => {
                let mut res = "IO error: ".to_owned();
                let t = io_error_text(e);
                let ghost head = res@;
                res.append(t.as_str());
                assert(res@.subrange(0, head.len() as int) =~= head);
                res
            },
            SandboxError::Other(m) => m.clone(),
        }
    }
}

impl From<std::io::Error> for SandboxError {
    fn from(e: std::io::Error) -> (res: Self)
        ensures
            res@ is Io,
    {
        SandboxError::Io(e)
    }
}

impl vstd::std_specs::convert::FromSpecImpl<std::io::Error> for SandboxError {
    open spec fn obeys_from_spec() -> bool {
        true
    }

    open spec fn from_spec(v: std::io::Error) -> SandboxError {
        SandboxError::Io(v)
    }
}

impl From<String> for SandboxError {
    fn from(s: String) -> (res: Self)
    {
        SandboxError::Other(s)
    }
}

impl vstd::std_specs::convert::FromSpecImpl<String> for SandboxError {
    open spec fn obeys_from_spec() -> bool {
        true
    }

    open spec fn from_spec(v: String) -> SandboxError {
        SandboxError::Other(v)
    }
}

} // verus!
