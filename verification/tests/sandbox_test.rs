//! Tests of the bash sandbox: whitelist, command and path checks, network
//! whitelist, shell checks.

use neoco::sandbox::fs::{contains_dangerous_metacharacters, resolve_sandbox_path, validate_shell_command};
use neoco::sandbox::{BashSandbox, SandboxError as WorkspaceError};
use neoco::tools::sandbox::network::{extract_host_from_url, glob_to_regex, NetworkError, NetworkWhitelist};
use neoco::tools::sandbox::whitelist::default_whitelist;
use neoco::tools::sandbox::{extract_command, Sandbox, SandboxConfig, SandboxError, Whitelist};

#[test]
fn test_whitelist_basic_commands() {
    let whitelist = Whitelist::default();

    assert!(whitelist.is_allowed("git"));
    assert!(whitelist.is_allowed("cargo"));
    assert!(whitelist.is_allowed("ls"));
    assert!(whitelist.is_allowed("cat"));
    assert!(whitelist.is_allowed("echo"));

    assert!(!whitelist.is_allowed("unknown-command"));
    assert!(!whitelist.is_allowed("evil"));
}

#[test]
fn test_sandbox_command_validation() {
    let sandbox = Sandbox::default();

    assert!(sandbox.validate_command("git status").is_ok());
    assert!(sandbox.validate_command("ls -la").is_ok());
    assert!(sandbox.validate_command("cargo build").is_ok());

    assert!(sandbox.validate_command("unknown-cmd").is_err());
    assert!(sandbox.validate_command("hack-the-planet").is_err());
}

#[test]
fn test_sandbox_path_traversal_blocking() {
    let sandbox = Sandbox::default();

    assert!(sandbox.validate_command("cat ../secret.txt").is_err());
    assert!(sandbox.validate_command("ls ../../etc").is_err());
    assert!(sandbox.validate_command("cat foo/../../../passwd").is_err());
}

#[test]
fn test_sandbox_absolute_path_blocking() {
    let sandbox = Sandbox::default();

    assert!(sandbox.validate_command("cat /etc/passwd").is_err());
    assert!(sandbox.validate_command("ls /home").is_err());
    assert!(sandbox.validate_command("cat /root/.ssh/id_rsa").is_err());
}

#[test]
fn test_sandbox_with_extra_commands() {
    let config = SandboxConfig { extra_whitelist: vec!["my-custom-tool".to_string()], ..Default::default() };

    let sandbox = Sandbox::new(config);

    assert!(sandbox.validate_command("git status").is_ok());
    assert!(sandbox.validate_command("my-custom-tool arg1").is_ok());
}

#[test]
fn test_sandbox_edge_cases() {
    let sandbox = Sandbox::default();

    assert!(sandbox.validate_command("").is_err());
    assert!(sandbox.validate_command("   ").is_err());
    assert!(sandbox.validate_path("file\0.txt").is_err());
    assert!(sandbox.validate_path("a/../b/../c/../../../d").is_err());
}

#[test]
fn test_network_whitelist_default_disabled() {
    let whitelist = NetworkWhitelist::default();

    assert!(whitelist.is_host_allowed("any.host.com").is_ok());
    assert!(whitelist.validate_url("https://evil.com").is_ok());
}

#[test]
fn test_network_whitelist_when_enabled() -> Result<(), regex::Error> {
    let whitelist = NetworkWhitelist::new(
        true,
        vec!["github.com".to_string(), "*.github.com".to_string(), "crates.io".to_string()],
    )?;

    assert!(whitelist.is_host_allowed("github.com").is_ok());
    assert!(whitelist.is_host_allowed("api.github.com").is_ok());
    assert!(whitelist.is_host_allowed("crates.io").is_ok());

    assert!(whitelist.is_host_allowed("evil.com").is_err());
    assert!(whitelist.is_host_allowed("google.com").is_err());

    assert!(whitelist.validate_url("https://github.com/user/repo").is_ok());
    assert!(whitelist.validate_url("https://evil.com/steal").is_err());

    Ok(())
}

#[test]
fn test_network_command_detection() {
    let whitelist = NetworkWhitelist::new(true, vec![]).unwrap();

    assert!(whitelist.is_command_allowed("git clone https://github.com/..."));
    assert!(whitelist.is_command_allowed("curl https://api.example.com"));
    assert!(whitelist.is_command_allowed("go build"));
    assert!(whitelist.is_command_allowed("cargo build"));

    assert!(!whitelist.is_command_allowed("ls -la"));
    assert!(!whitelist.is_command_allowed("cat file.txt"));
    assert!(!whitelist.is_command_allowed("echo hello"));
}

#[test]
fn test_validate_allowed_command() {
    let sandbox = Sandbox::default();
    assert!(sandbox.validate_command("git status").is_ok());
    assert!(sandbox.validate_command("ls -la").is_ok());
}

#[test]
fn test_validate_disallowed_command() {
    let sandbox = Sandbox::default();
    assert!(sandbox.validate_command("unknown-cmd").is_err());
    assert!(sandbox.validate_command("evil-script").is_err());
}

#[test]
fn test_validate_path_traversal() {
    let sandbox = Sandbox::default();
    assert!(sandbox.validate_path("../secret.txt").is_err());
    assert!(sandbox.validate_path("foo/../../../etc/passwd").is_err());
}

#[test]
fn test_validate_absolute_path_outside_workspace() {
    let sandbox = Sandbox::default();
    assert!(sandbox.validate_path("/etc/passwd").is_err());
    assert!(sandbox.validate_path("/home/user/.ssh/id_rsa").is_err());
}

#[test]
fn test_network_whitelist_disabled() {
    let whitelist = NetworkWhitelist::default();
    assert!(whitelist.is_host_allowed("any.host.com").is_ok());
    assert!(whitelist.validate_url("https://example.com").is_ok());
}

#[test]
fn test_network_whitelist_enabled() -> Result<(), regex::Error> {
    let whitelist = NetworkWhitelist::new(true, vec!["github.com".to_string(), "*.example.com".to_string()])?;

    assert!(whitelist.is_host_allowed("github.com").is_ok());
    assert!(whitelist.is_host_allowed("api.example.com").is_ok());
    assert!(whitelist.is_host_allowed("sub.example.com").is_ok());
    assert!(whitelist.is_host_allowed("other.com").is_err());

    Ok(())
}

#[test]
fn test_extract_host() {
    assert_eq!(extract_host_from_url("https://github.com/user/repo"), Some("github.com".to_string()));
    assert_eq!(extract_host_from_url("http://api.example.com:8080/path"), Some("api.example.com".to_string()));
    assert_eq!(extract_host_from_url("ftp://files.server.com"), Some("files.server.com".to_string()));
}

#[test]
fn test_glob_to_regex() {
    assert_eq!(glob_to_regex("github.com"), "^github\\.com$");
    assert_eq!(glob_to_regex("*.example.com"), "^.*\\.example\\.com$");
    assert_eq!(glob_to_regex("api?.test.com"), "^api.\\.test\\.com$");
}

#[test]
fn test_command_network_check() {
    let whitelist = NetworkWhitelist::new(true, vec![]).unwrap();

    assert!(whitelist.is_command_allowed("git clone ..."));
    assert!(whitelist.is_command_allowed("curl https://..."));
    assert!(whitelist.is_command_allowed("npm install"));
    assert!(!whitelist.is_command_allowed("ls -la"));
    assert!(!whitelist.is_command_allowed("cat file.txt"));
}

#[test]
fn test_default_whitelist() {
    let whitelist = Whitelist::default();
    assert!(whitelist.is_allowed("git"));
    assert!(whitelist.is_allowed("cargo"));
    assert!(whitelist.is_allowed("ls"));
    assert!(!whitelist.is_allowed("unknown-cmd"));
}

#[test]
fn test_extra_commands() {
    let whitelist = Whitelist::new(vec!["custom-tool".to_string()]);
    assert!(whitelist.is_allowed("custom-tool"));
    assert!(whitelist.is_allowed("git"));
}

#[test]
fn test_extract_command() {
    assert_eq!(extract_command("git status"), Some("git".to_string()));
    assert_eq!(extract_command("cargo build --release"), Some("cargo".to_string()));
    assert_eq!(extract_command("  ls -la  "), Some("ls".to_string()));
}

#[test]
fn test_dangerous_metacharacters() {
    assert!(contains_dangerous_metacharacters("`whoami`").is_some());
    assert!(contains_dangerous_metacharacters("$(whoami)").is_some());
    assert!(contains_dangerous_metacharacters("${HOME}").is_some());
    assert!(contains_dangerous_metacharacters("cat ../secret").is_some());
    assert!(contains_dangerous_metacharacters("echo hello").is_none());
}

#[test]
fn test_resolve_traversal_denied() {
    let result = resolve_sandbox_path("../secret.txt", "/tmp");
    assert!(matches!(result, Err(WorkspaceError::PathTraversal(_))));
}

// Further cases.

#[test]
fn traversal_error_names_the_path() {
    let sandbox = Sandbox::default();
    match sandbox.validate_path("../secret.txt") {
        Err(SandboxError::PathTraversal(p)) => assert_eq!(p, "../secret.txt"),
        other => panic!("unexpected result: {other:?}"),
    }
}

#[test]
fn unlisted_command_error_names_the_command() {
    let sandbox = Sandbox::default();
    match sandbox.validate_command("evil-script --now") {
        Err(SandboxError::CommandNotAllowed(c)) => assert_eq!(c, "evil-script"),
        other => panic!("unexpected result: {other:?}"),
    }
}

#[test]
fn null_byte_is_an_invalid_path() {
    let sandbox = Sandbox::default();
    assert!(matches!(sandbox.validate_path("file\0.txt"), Err(SandboxError::InvalidPath(_))));
}

#[test]
fn absolute_path_under_allowed_path_passes() {
    let config = SandboxConfig { allowed_paths: vec!["/opt/data".to_string()], ..Default::default() };
    let sandbox = Sandbox::new(config);
    assert!(sandbox.validate_path("/opt/data/file.txt").is_ok());
    assert!(matches!(sandbox.validate_path("/opt/database"), Err(SandboxError::PathOutsideWorkspace(_))));
}

#[test]
fn quoted_words_are_not_checked_as_paths() {
    let sandbox = Sandbox::default();
    assert!(sandbox.validate_command("grep '../pattern' notes").is_ok());
}

#[test]
fn default_whitelist_lists_defaults_once() {
    let all = default_whitelist();
    assert!(all.contains(&"git".to_string()));
    let mut sorted = all.clone();
    sorted.sort();
    sorted.dedup();
    assert_eq!(sorted.len(), all.len());
}

#[test]
fn extract_command_of_blank_is_none() {
    assert_eq!(extract_command("   "), None);
}

#[test]
fn host_keeps_only_the_host() {
    assert_eq!(extract_host_from_url("example.com:443/x"), Some("example.com".to_string()));
    assert_eq!(extract_host_from_url(""), Some(String::new()));
}

#[test]
fn network_error_messages() {
    let w = NetworkWhitelist::new(true, vec!["a.com".to_string()]).unwrap();
    match w.is_host_allowed("b.com") {
        Err(e) => {
            assert!(matches!(e, NetworkError::HostNotAllowed(_)));
            assert_eq!(e.message(), "Host not in whitelist: b.com");
        },
        Ok(()) => panic!("b.com must be refused"),
    }
}

#[test]
fn invalid_host_pattern_is_refused() {
    assert!(NetworkWhitelist::new(true, vec!["(".to_string()]).is_err());
}

#[test]
fn shell_check_refuses_substitution() {
    assert!(matches!(validate_shell_command("echo `whoami`"), Err(WorkspaceError::DangerousCommand(_))));
    assert!(validate_shell_command("echo hello").is_ok());
}

#[test]
fn bash_sandbox_checks_commands() {
    let sandbox = BashSandbox::new("/tmp").unwrap();
    assert!(sandbox.check_command("echo hello").is_ok());
    assert!(sandbox.check_command("cat ../secret.txt").is_err());
    assert!(sandbox.check_command("echo `whoami`").is_err());
    assert_eq!(sandbox.command_timeout(), 60);
}

#[test]
fn bash_sandbox_invocation() {
    let sandbox = BashSandbox::new("/tmp").unwrap();
    let inv = sandbox.invocation("echo hi", "/usr/bin");
    assert_eq!(inv.program, "bash");
    assert_eq!(inv.args, vec!["-c".to_string(), "echo hi".to_string()]);
    assert_eq!(inv.current_dir, sandbox.workspace());
    assert_eq!(inv.env[0], ("PATH".to_string(), "/usr/bin".to_string()));
    assert_eq!(inv.env[1].0, "HOME");
    assert_eq!(inv.env[2].0, "PWD");
}

#[test]
fn enabled_whitelist_without_patterns_allows_no_host() {
    let w = NetworkWhitelist::new(true, Vec::new()).unwrap();
    assert!(w.is_host_allowed("github.com").is_err());
    assert!(w.validate_url("https://github.com/x").is_err());
}

#[test]
fn resolving_a_new_file_in_the_workspace() {
    let resolved = resolve_sandbox_path("surely-missing-file.txt", "/tmp").unwrap();
    assert_eq!(resolved, "/tmp/surely-missing-file.txt");
    assert!(matches!(resolve_sandbox_path("/etc/passwd", "/tmp"), Err(WorkspaceError::OutsideWorkspace { .. })));
}

#[test]
fn bash_sandbox_workspace_is_canonical() {
    let sandbox = BashSandbox::new("/tmp/.").unwrap();
    assert_eq!(sandbox.workspace(), "/tmp");
    assert!(BashSandbox::new("/surely/missing/dir").is_err());
}

#[test]
fn allowed_commands_lists_defaults_and_extras_once() {
    let w = Whitelist::new(vec!["git".to_string(), "tool".to_string()]);
    let mut all = w.allowed_commands();
    assert!(all.contains(&"tool".to_string()));
    assert!(all.contains(&"git".to_string()));
    let n = all.len();
    all.sort();
    all.dedup();
    assert_eq!(all.len(), n);
    assert_eq!(n, default_whitelist().len() + 1);
}
