//! Configuration of the bash sandbox.
use vstd::prelude::*;

use crate::path::{canonical_answer, canonical_path, is_absolute};

verus! {

/// Sandbox configuration for the bash tool.
#[derive(Debug, Clone)]
pub struct SandboxConfig {
    /// Workspace directory: every file operation must stay inside it.
    pub workspace_dir: String,
    /// Further paths outside the workspace that may be used (e.g. `/tmp`).
    pub allowed_paths: Vec<String>,
    /// Network access settings.
    pub network: NetworkConfig,
    /// Commands added to the default whitelist.
    pub extra_whitelist: Vec<String>,
}

/// Network access configuration.
#[derive(Debug, Clone)]
pub struct NetworkConfig {
    /// Whether the network whitelist is enforced (off by default).
    pub enabled: bool,
    /// Allowed hosts or host patterns (e.g. `github.com`, `*.example.com`).
    pub allowed_hosts: Vec<String>,
}

/// The default of a switch that is off unless configured.
fn default_false() -> (res: bool)
    ensures
        !res,
{
    false
}

/// The current directory: the canonical form of `.`, or `.` itself when it
/// cannot be resolved.
pub open spec fn workspace_default(res: Seq<char>) -> bool {
    ||| is_absolute(res) && canonical_answer("."@, Ok(res))
    ||| res == "."@ && exists|e: Seq<char>| canonical_answer("."@, Err(e))
}

/// The current directory (see `workspace_default`).
fn default_workspace_dir() -> (res: String)
    ensures
        workspace_default(res@),
{
    match canonical_path(".") {
        Ok(c) => c,
        Err(e) => {
            assert(canonical_answer("."@, Err(e@)));
            ".".to_owned()
        },
    }
}

impl Default for NetworkConfig {
    fn default() -> (res: Self)
        ensures
            !res.enabled,
            res.allowed_hosts@.len() == 0,
    {
        NetworkConfig { enabled: default_false(), allowed_hosts: Vec::new() }
    }
}

impl Default for SandboxConfig {
    fn default() -> (res: Self)
        ensures
            workspace_default(res.workspace_dir@),
            res.allowed_paths@.len() == 0,
            !res.network.enabled,
            res.network.allowed_hosts@.len() == 0,
            res.extra_whitelist@.len() == 0,
    {
        SandboxConfig {
            workspace_dir: default_workspace_dir(),
            allowed_paths: Vec::new(),
            network: NetworkConfig::default(),
            extra_whitelist: Vec::new(),
        }
    }
}

} // verus!
