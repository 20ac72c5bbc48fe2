use cmake_bind_builder::errors::BuildError;
use cmake_bind_builder::path::DirPath;
use cmake_bind_builder::vcs::{acquire_plan, clone_repo_plan, judge_vcs_status, VcsCommand};

fn root_path(segments: &[&str]) -> DirPath {
    DirPath::from_segments(segments.iter().map(|s| s.to_string()).collect())
}

#[test]
fn acquire_fresh_initializes_and_checks_out() {
    let root = root_path(&["", "tmp", "git"]);
    let plan = acquire_plan("zlib", "https://example/zlib.git", "v1.3", &root, false);
    assert_eq!(plan.working_copy, root_path(&["", "tmp", "git", "zlib"]));
    assert!(plan.freshly_created);
    assert_eq!(
        plan.steps,
        vec![
            VcsCommand::Init,
            VcsCommand::RemoteAdd {
                name: "origin".to_string(),
                url: "https://example/zlib.git".to_string(),
            },
            VcsCommand::Fetch { remote: "origin".to_string(), refname: "v1.3".to_string() },
            VcsCommand::HardReset { refname: "v1.3".to_string() },
            VcsCommand::SubmoduleUpdate,
        ]
    );
}

#[test]
fn acquire_existing_reuses_checkout() {
    let root = root_path(&["", "tmp", "git"]);
    let first = acquire_plan("zlib", "https://example/zlib.git", "v1.3", &root, false);
    let second = acquire_plan("zlib", "https://example/zlib.git", "v1.3", &root, true);
    // Same working copy, no second full clone or init, same final checkout ref.
    assert_eq!(second.working_copy, first.working_copy);
    assert!(!second.freshly_created);
    assert!(second.steps.iter().all(|s| !matches!(s, VcsCommand::Init)));
    assert!(second.steps.iter().all(|s| !matches!(s, VcsCommand::CloneShallow { .. })));
    assert_eq!(second.steps.as_slice(), &first.steps[2..]);
    assert_eq!(
        second.steps,
        vec![
            VcsCommand::Fetch { remote: "origin".to_string(), refname: "v1.3".to_string() },
            VcsCommand::HardReset { refname: "v1.3".to_string() },
            VcsCommand::SubmoduleUpdate,
        ]
    );
}

#[test]
fn clone_repo_reuses_existing_directory() {
    let root = root_path(&["", "srv"]);
    let plan = clone_repo_plan("dep", "https://example/dep.git", "main", &root, true);
    assert_eq!(plan.working_copy, root_path(&["", "srv", "dep"]));
    assert!(plan.steps.is_empty());
}

#[test]
fn clone_repo_clones_missing_directory() {
    let root = root_path(&["", "srv"]);
    let plan = clone_repo_plan("dep", "https://example/dep.git", "main", &root, false);
    assert_eq!(
        plan.steps,
        vec![VcsCommand::CloneShallow {
            url: "https://example/dep.git".to_string(),
            refname: "main".to_string(),
            directory: "dep".to_string(),
        }]
    );
}

#[test]
fn vcs_status_zero_is_success() {
    assert_eq!(judge_vcs_status(Some(0)), Ok(()));
}

#[test]
fn vcs_status_missing_tool() {
    assert_eq!(judge_vcs_status(None), Err(BuildError::VcsToolMissing));
}

#[test]
fn vcs_status_nonzero_is_operation_failure() {
    assert_eq!(judge_vcs_status(Some(128)), Err(BuildError::VcsOperationFailed));
}
