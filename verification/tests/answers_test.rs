//! Tests of the path decisions taken from given filesystem answers.

use neoco::sandbox::fs::{candidate_step, resolve_with_answers, sandbox_candidate};
use neoco::sandbox::{BashSandbox, SandboxError as WorkspaceError};
use neoco::tools::sandbox::{resolved_check, SandboxError};

fn ok(s: &str) -> Result<String, String> {
    Ok(s.to_string())
}

fn err(s: &str) -> Result<String, String> {
    Err(s.to_string())
}

#[test]
fn candidate_joins_relative_paths_only() {
    assert_eq!(sandbox_candidate("a.txt", "/ws"), "/ws/a.txt");
    assert_eq!(sandbox_candidate("a.txt", "/ws/"), "/ws/a.txt");
    assert_eq!(sandbox_candidate("/etc/passwd", "/ws"), "/etc/passwd");
}

#[test]
fn existing_file_inside_workspace_resolves() {
    let r = resolve_with_answers("a.txt", "/ws", true, ok("/real/ws/a.txt"), err("unused"), ok("/real/ws"));
    assert_eq!(r.unwrap(), "/real/ws/a.txt");
}

#[test]
fn canonical_path_outside_workspace_is_refused() {
    let r = resolve_with_answers("link.txt", "/ws", true, ok("/etc/passwd"), err("unused"), ok("/ws"));
    match r {
        Err(WorkspaceError::OutsideWorkspace { path, workspace }) => {
            assert_eq!(path, "link.txt");
            assert_eq!(workspace, "/ws");
        },
        other => panic!("unexpected {other:?}"),
    }
}

#[test]
fn workspace_that_cannot_be_canonicalized_is_reported() {
    let r = resolve_with_answers("a.txt", "/ws", true, ok("/ws/a.txt"), err("unused"), err("gone"));
    match r {
        Err(WorkspaceError::Other(m)) => assert_eq!(m, "Cannot canonicalize workspace root: gone"),
        other => panic!("unexpected {other:?}"),
    }
}

#[test]
fn new_file_resolves_through_its_parent() {
    let r = resolve_with_answers("dir/new.txt", "/ws", false, err("unused"), ok("/ws/dir"), ok("/ws"));
    assert_eq!(r.unwrap(), "/ws/dir/new.txt");
    let step = candidate_step("dir/new.txt", "/ws", false, &err("unused"), &err("no such dir"));
    match step {
        Err(WorkspaceError::Other(m)) => {
            assert_eq!(m, "Cannot resolve parent directory of 'dir/new.txt': no such dir")
        },
        other => panic!("unexpected {other:?}"),
    }
}

#[test]
fn failed_canonicalization_of_existing_file_is_reported() {
    let step = candidate_step("a.txt", "/ws", true, &err("denied"), &err("unused"));
    match step {
        Err(WorkspaceError::Other(m)) => assert_eq!(m, "Cannot resolve path 'a.txt': denied"),
        other => panic!("unexpected {other:?}"),
    }
}

#[test]
fn checks_before_the_filesystem_win() {
    let r = resolve_with_answers("../x", "/ws", true, ok("/ws/x"), err("unused"), ok("/ws"));
    assert!(matches!(r, Err(WorkspaceError::PathTraversal(p)) if p == "../x"));
    let r = resolve_with_answers("a\0b", "/ws", true, ok("/ws/x"), err("unused"), ok("/ws"));
    assert!(matches!(r, Err(WorkspaceError::InvalidPath(_))));
}

#[test]
fn resolved_check_compares_with_the_canonical_workspace() {
    assert!(resolved_check("/ws/a.txt", "/ws", ok("/real/ws/a.txt"), ok("/real/ws"), "a.txt").is_ok());
    match resolved_check("/ws/link", "/ws", ok("/etc/passwd"), ok("/real/ws"), "link") {
        Err(SandboxError::PathOutsideWorkspace(p)) => assert_eq!(p, "link"),
        other => panic!("unexpected {other:?}"),
    }
}

#[test]
fn resolved_check_keeps_paths_that_cannot_be_resolved() {
    assert!(resolved_check("/ws/new.txt", "/ws", err("missing"), err("missing"), "new.txt").is_ok());
    assert!(resolved_check("/ws/new.txt", "/ws", err("missing"), ok("/real/ws"), "new.txt").is_err());
}

#[test]
fn missing_workspace_is_reported_when_the_sandbox_is_made() {
    match BashSandbox::new("/surely/missing/workspace/dir") {
        Err(WorkspaceError::Other(m)) => assert!(m.starts_with("Failed to canonicalize workspace: ")),
        Err(e) => panic!("unexpected {e:?}"),
        Ok(_) => panic!("a missing workspace was accepted"),
    }
}
