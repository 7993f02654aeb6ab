use std::path::{Path, PathBuf};

use link_disk::config::{Config, Workspace};
use link_disk::link_status::{LinkStatus, LinkStatusChecker, PathState};
use link_disk::path_resolver::{Environment, PathResolver};
use tempfile::TempDir;

fn observe(p: &Path) -> PathState {
    PathState { exists: p.exists(), is_symlink: p.is_symlink(), is_dir: p.is_dir() }
}

fn setup_test_env_with_source() -> (TempDir, PathBuf, PathBuf) {
    let temp = TempDir::new().unwrap();
    let source = tempfile::Builder::new()
        .prefix("source")
        .rand_bytes(0)
        .keep(true)
        .tempdir_in(temp.path())
        .unwrap()
        .path()
        .to_path_buf();
    let target = temp.path().join("target");
    (temp, source, target)
}

fn no_environment() -> Environment {
    Environment { program_files: None, program_files_x86: None, temp: None }
}

fn setup_test_env_empty() -> (TempDir, PathBuf, PathBuf) {
    let temp = TempDir::new().unwrap();
    let source = temp.path().join("source");
    let target = temp.path().join("target");
    (temp, source, target)
}

#[test]
fn test_home_placeholder() {
    let result = PathResolver::expand("<home>", &no_environment());
    assert!(!result.contains("<home>"));
}

#[test]
fn test_link_status_none() {
    let (temp, _, _) = setup_test_env_empty();
    let source = temp.path().join("nonexistent_src");
    let target = temp.path().join("nonexistent_tgt");

    let status = LinkStatusChecker::check(&observe(&source), &observe(&target));
    assert_eq!(status, LinkStatus::Neither);
}

#[test]
fn test_link_status_source_only() {
    let (_temp, source, target) = setup_test_env_with_source();

    let status = LinkStatusChecker::check(&observe(&source), &observe(&target));
    assert_eq!(status, LinkStatus::SourceOnly);
}

#[test]
fn test_link_status_target_only() {
    let (temp, source, _) = setup_test_env_empty();
    let target = temp.path().to_path_buf();

    let status = LinkStatusChecker::check(&observe(&source), &observe(&target));
    assert_eq!(status, LinkStatus::TargetOnly);
}

#[test]
fn test_path_resolver_expand_home() {
    let result = PathResolver::expand_home("~/test");
    let result_str = result.as_str();
    assert!(!result_str.contains("~"));
    assert!(result_str.contains("Users") || result_str.contains("home"));
}

#[test]
fn test_config_workspace() {
    let config = Config {
        workspace: Workspace { path: String::from("D:/test-workspace") },
        apps: Vec::new(),
    };

    assert_eq!(config.workspace.path, String::from("D:/test-workspace"));
    assert!(config.apps.is_empty());
}
