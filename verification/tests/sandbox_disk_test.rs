//! Tests of the sandbox's path checks against real directories.

use neoco::sandbox::fs::resolve_sandbox_path;
use neoco::sandbox::SandboxError as WorkspaceError;
use neoco::tools::sandbox::{Sandbox, SandboxConfig};
use tempfile::{Builder, NamedTempFile, TempDir};

fn dir_string(dir: &TempDir) -> String {
    dir.path().to_str().unwrap().to_string()
}

/// Creates the file `name` (a stem and an extension) in `dir`.
fn file_in(dir: &TempDir, stem: &str, ext: &str) -> NamedTempFile {
    Builder::new().prefix(stem).suffix(ext).rand_bytes(0).tempfile_in(dir.path()).expect("Failed to write file")
}

#[test]
fn test_resolve_valid_path() {
    let temp_dir = TempDir::new().unwrap();
    let workspace = dir_string(&temp_dir);
    let test_file = file_in(&temp_dir, "test", ".txt");

    let result = resolve_sandbox_path("test.txt", &workspace);
    assert!(result.is_ok());
    let expected = test_file.path().canonicalize().unwrap();
    assert_eq!(result.unwrap(), expected.to_str().unwrap());
}

#[test]
fn test_resolve_outside_workspace() {
    let temp_dir = TempDir::new().unwrap();
    let workspace = dir_string(&temp_dir);

    let outside_dir = TempDir::new().unwrap();
    let outside = file_in(&outside_dir, "test", ".txt");

    let result = resolve_sandbox_path(outside.path().to_str().unwrap(), &workspace);
    assert!(matches!(result, Err(WorkspaceError::OutsideWorkspace { .. })));
}

#[test]
fn test_validate_relative_path_inside_workspace() {
    let temp_dir = tempfile::tempdir().expect("Failed to create temp dir");

    let config = SandboxConfig { workspace_dir: dir_string(&temp_dir), ..Default::default() };
    let sandbox = Sandbox::new(config);

    let _file = file_in(&temp_dir, "test", ".txt");

    assert!(sandbox.validate_path("test.txt").is_ok());
    assert!(sandbox.validate_path("./test.txt").is_ok());
}

#[test]
fn test_validate_allowed_paths() {
    let temp_dir = tempfile::tempdir().expect("Failed to create temp dir");
    let temp_path = dir_string(&temp_dir);
    let config = SandboxConfig {
        workspace_dir: temp_path.clone(),
        allowed_paths: vec![temp_path.clone()],
        ..Default::default()
    };
    let sandbox = Sandbox::new(config);

    assert!(sandbox.validate_path(&format!("{}/file.txt", temp_path)).is_ok());
    assert!(sandbox.validate_path("/etc/passwd").is_err());
}

#[test]
fn test_sandbox_with_custom_workspace() {
    let temp_dir = TempDir::new().unwrap();
    let temp_path = dir_string(&temp_dir);
    let config = SandboxConfig {
        workspace_dir: temp_path.clone(),
        allowed_paths: vec![temp_path.clone()],
        ..Default::default()
    };

    let sandbox = Sandbox::new(config);

    let _file = file_in(&temp_dir, "test", ".txt");
    assert!(sandbox.validate_command("cat test.txt").is_ok());

    assert!(sandbox.validate_path(&format!("{}/test", temp_path)).is_ok());

    assert!(sandbox.validate_path("/etc/passwd").is_err());
}

#[test]
fn test_sandbox_complex_commands() {
    let temp_dir = TempDir::new().expect("Failed to create temp dir");

    let config = SandboxConfig { workspace_dir: dir_string(&temp_dir), ..Default::default() };

    let sandbox = Sandbox::new(config);

    let _file1 = file_in(&temp_dir, "file1", ".txt");
    let _file2 = file_in(&temp_dir, "file2", ".txt");

    assert!(sandbox.validate_command("cat file1.txt file2.txt").is_ok());
    assert!(sandbox.validate_command("grep pattern file1.txt").is_ok());
    assert!(sandbox.validate_command("ls -la | grep txt").is_ok());

    assert!(sandbox.validate_command("cat ../file1.txt").is_err());
    assert!(sandbox.validate_command("grep pattern ../../secret").is_err());
}

#[test]
fn test_sandbox_directory_operations() {
    let temp_dir = TempDir::new().expect("Failed to create temp dir");

    let config = SandboxConfig { workspace_dir: dir_string(&temp_dir), ..Default::default() };

    let sandbox = Sandbox::new(config);

    let _subdir = Builder::new().prefix("subdir").rand_bytes(0).tempdir_in(temp_dir.path()).expect("Failed to create subdir");

    assert!(sandbox.validate_command("mkdir newdir").is_ok());
    assert!(sandbox.validate_command("ls subdir").is_ok());
    assert!(sandbox.validate_command("find . -name '*.txt'").is_ok());

    assert!(sandbox.validate_command("ls ../..").is_err());
    assert!(sandbox.validate_command("mkdir /etc/newdir").is_err());
}
