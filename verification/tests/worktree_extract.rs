use std::cell::RefCell;

use vde_worktree::create::TargetFilesystem;
use vde_worktree::error::{CliError, DetailValue, ErrorCode, ExecutionPhase, ExecutionState};
use vde_worktree::extract::{
    apply_extract_git, finalize_extract_state, restore_extract_after_pre_hook_failure, stage_extract_for_hook,
    restore_next, restore_run, stash_ref_for, ExtractFilesystem, StashRestoreStage,
};
use vde_worktree::finalize::WorktreeFinalization;
use vde_worktree::plans::{ExtractGitApplied, ExtractPlan, StagedExtractPlan};
use vde_worktree::probes::CreateMutationGit;
use vde_worktree::process::ProcessOutput;

fn output(code: i32, stdout: &str) -> ProcessOutput {
    ProcessOutput {
        exit_code: Some(code),
        stdout: stdout.as_bytes().to_vec(),
        stderr: Vec::new(),
        timed_out: false,
        signal: None,
        stdout_truncated: false,
        stderr_truncated: false,
    }
}

/// A Git double that answers runs by their joined arguments (exit 0 and no output
/// otherwise) and records `cwd: args` for each run.
struct Git {
    replies: Vec<(&'static str, i32, &'static str)>,
    runs: RefCell<Vec<String>>,
}

impl Git {
    fn new(replies: Vec<(&'static str, i32, &'static str)>) -> Self {
        Git { replies, runs: RefCell::new(Vec::new()) }
    }

    fn ran(&self, run: &str) -> bool {
        self.runs.borrow().iter().any(|r| r == run)
    }
}

impl CreateMutationGit for Git {
    fn run_git(&self, cwd: &str, args: &[String]) -> Result<ProcessOutput, CliError> {
        let joined = args.join(" ");
        self.runs.borrow_mut().push(format!("{cwd}: {joined}"));
        for (expected, code, stdout) in &self.replies {
            if *expected == joined {
                return Ok(output(*code, stdout));
            }
        }
        Ok(output(0, ""))
    }

    fn run_git_checked(&self, cwd: &str, args: &[String]) -> Result<ProcessOutput, CliError> {
        self.run_git(cwd, args)
    }
}

struct Fs {
    target_exists: bool,
    parent_fails: bool,
}

impl TargetFilesystem for Fs {
    fn ensure_contained(&self, _managed_root: &str, _path: &str) -> Result<(), CliError> {
        Ok(())
    }

    fn path_exists(&self, _path: &str) -> Result<bool, CliError> {
        Ok(self.target_exists)
    }

    fn ensure_target_writable(&self, _path: &str) -> Result<(), CliError> {
        Ok(())
    }

    fn ensure_target_path_empty(&self, _path: &str) -> Result<(), CliError> {
        Ok(())
    }

    fn create_parent(&self, _path: &str) -> Result<(), CliError> {
        if self.parent_fails {
            Err(CliError::new(ErrorCode::InternalError, "cannot create parent"))
        } else {
            Ok(())
        }
    }

    fn prune_empty_target_parents(&self, _target: &str, _managed_root: &str) {}

    fn same_location(&self, left: &str, right: &str) -> bool {
        left == right
    }
}

struct Dirs {
    fail: bool,
    created: RefCell<Vec<String>>,
}

impl ExtractFilesystem for Dirs {
    fn create_directory(&self, path: &str) -> Result<(), CliError> {
        self.created.borrow_mut().push(path.to_owned());
        if self.fail {
            Err(CliError::new(ErrorCode::InternalError, "cannot create managed root"))
        } else {
            Ok(())
        }
    }

    fn revalidate_target(&self, plan: &ExtractPlan) -> Result<String, CliError> {
        Ok(plan.target_path.clone())
    }
}

struct Lifecycle {
    fail: bool,
}

impl WorktreeFinalization for Lifecycle {
    fn copy_worktree_include(&self, _repo_root: &str, _managed_root: &str, _target: &str) -> Result<(), CliError> {
        Ok(())
    }

    fn merge_lifecycle_observation(&self, _repo_root: &str, _branch: &str, _base_branch: &str) -> Result<(), CliError> {
        if self.fail {
            Err(CliError::new(ErrorCode::InternalError, "state write failed"))
        } else {
            Ok(())
        }
    }
}

fn plan(dirty: bool) -> ExtractPlan {
    ExtractPlan {
        repo_root: "/repo".to_owned(),
        managed_root: "/repo/.worktree".to_owned(),
        branch: "topic".to_owned(),
        base_branch: "main".to_owned(),
        target_path: "/repo/.worktree/topic".to_owned(),
        dirty,
    }
}

fn text(value: &str) -> DetailValue {
    DetailValue::Text(value.to_owned())
}

const STASH_LIST: &str = "stash list --format=%gd%x09%H";

#[test]
fn extract_stash_references_are_found_by_object_id() {
    assert_eq!(stash_ref_for("stash@{0}\tdef\nstash@{1}\tabc\n", "abc"), Some("stash@{1}".to_owned()));
    assert_eq!(stash_ref_for("  stash@{2}\tabc  \n", "abc"), Some("stash@{2}".to_owned()));
    assert_eq!(stash_ref_for("\tabc\n", "abc"), None);
    assert_eq!(stash_ref_for("stash@{0}\tabcd\n", "abc"), None);
    assert_eq!(stash_ref_for("", "abc"), None);
}

#[test]
fn extract_clean_worktree_needs_no_stash() {
    let git = Git::new(vec![]);
    let dirs = Dirs { fail: false, created: RefCell::new(Vec::new()) };
    let staged = stage_extract_for_hook(&git, &dirs, plan(false)).unwrap();
    assert_eq!(staged.stash_oid, None);
    assert!(git.runs.borrow().is_empty());
}

#[test]
fn extract_dirty_worktree_is_stashed_before_hooks() {
    let git = Git::new(vec![("rev-parse --verify -q stash@{0}", 0, "abc\n")]);
    let dirs = Dirs { fail: false, created: RefCell::new(Vec::new()) };
    let staged = stage_extract_for_hook(&git, &dirs, plan(true)).unwrap();
    assert_eq!(staged.stash_oid, Some("abc".to_owned()));
    assert!(git.ran("/repo: stash push -u -m vde-worktree extract topic"));
    assert_eq!(*dirs.created.borrow(), vec!["/repo/.worktree".to_owned()]);
}

#[test]
fn extract_stage_failure_puts_the_stash_back() {
    let git = Git::new(vec![
        ("rev-parse --verify -q stash@{0}", 0, "abc\n"),
        (STASH_LIST, 0, "stash@{0}\tabc\n"),
    ]);
    let dirs = Dirs { fail: true, created: RefCell::new(Vec::new()) };
    let error = stage_extract_for_hook(&git, &dirs, plan(true)).unwrap_err();
    assert!(git.ran("/repo: stash apply abc"));
    assert!(git.ran("/repo: stash drop stash@{0}"));
    assert_eq!(error.message, "cannot create managed root");
    assert_eq!(error.detail("autoRestoreCompleted"), Some(&DetailValue::Bool(true)));
    let execution = error.execution.unwrap();
    assert_eq!(execution.state, ExecutionState::RolledBack);
    assert_eq!(execution.completed, vec!["restoreSource".to_owned()]);
}

#[test]
fn extract_failed_stash_restore_is_left_for_recovery() {
    let git = Git::new(vec![("rev-parse --verify -q stash@{0}", 0, ""), ("stash apply stash@{0}", 1, "")]);
    let dirs = Dirs { fail: false, created: RefCell::new(Vec::new()) };
    let error = stage_extract_for_hook(&git, &dirs, plan(true)).unwrap_err();
    assert_eq!(error.message, "failed to resolve created stash entry");
    assert_eq!(error.detail("autoRestoreFailed"), Some(&DetailValue::Bool(true)));
    assert_eq!(
        error.detail("autoRestoreError"),
        Some(&text("failed to auto-restore stashed changes after pre-hook failure"))
    );
    assert_eq!(error.detail("recoveryStashRef"), Some(&text("stash@{0}")));
    let execution = error.execution.unwrap();
    assert_eq!(execution.state, ExecutionState::RecoveryRequired);
    assert_eq!(
        execution.recovery,
        vec![("stashRef".to_owned(), text("stash@{0}")), ("worktreePath".to_owned(), text("/repo"))]
    );
}

#[test]
fn extract_pre_hook_failure_restores_and_drops_the_stash() {
    let git = Git::new(vec![(STASH_LIST, 0, "stash@{0}\tabc\n")]);
    let staged = StagedExtractPlan { plan: plan(true), stash_oid: Some("abc".to_owned()) };
    restore_extract_after_pre_hook_failure(&git, &staged).unwrap();
    assert_eq!(
        *git.runs.borrow(),
        vec![
            "/repo: stash apply abc".to_owned(),
            format!("/repo: {STASH_LIST}"),
            "/repo: stash drop stash@{0}".to_owned(),
        ]
    );
}

#[test]
fn extract_stash_apply_failure_is_typed_and_preserves_stash_for_recovery() {
    let git = Git::new(vec![("stash apply 0123456789abcdef", 1, "")]);
    let staged = StagedExtractPlan { plan: plan(true), stash_oid: Some("0123456789abcdef".to_owned()) };
    let error = restore_extract_after_pre_hook_failure(&git, &staged).unwrap_err();
    assert_eq!(error.code, ErrorCode::StashApplyFailed);
    let calls = git.runs.borrow();
    assert_eq!(calls.len(), 1, "failed apply must not drop the stash");
    assert!(calls[0].starts_with("/repo: stash apply"));
}

#[test]
fn restore_steps_run_apply_list_drop_and_nothing_after_a_failed_apply() {
    let words = |args: Option<Vec<String>>| args.map(|a| a.join(" "));
    assert_eq!(words(restore_run("abc", &StashRestoreStage::Applying)), Some("stash apply abc".to_owned()));
    let failed = restore_next("/repo", "abc", StashRestoreStage::Applying, Ok(output(1, "")));
    match &failed {
        StashRestoreStage::Done(Err(error)) => {
            assert_eq!(error.code, ErrorCode::StashApplyFailed);
            assert_eq!(error.message, "failed to auto-restore stashed changes after pre-hook failure");
        },
        _ => panic!("a failed apply ends the restore"),
    }
    assert_eq!(words(restore_run("abc", &failed)), None);

    let listing = restore_next("/repo", "abc", StashRestoreStage::Applying, Ok(output(0, "")));
    assert!(matches!(listing, StashRestoreStage::Listing));
    assert_eq!(words(restore_run("abc", &listing)), Some(STASH_LIST.to_owned()));
    let dropping = restore_next("/repo", "abc", listing, Ok(output(0, "stash@{1}\tabc\n")));
    match &dropping {
        StashRestoreStage::Dropping(reference) => assert_eq!(reference, "stash@{1}"),
        _ => panic!("a listed stash is dropped"),
    }
    assert_eq!(words(restore_run("abc", &dropping)), Some("stash drop stash@{1}".to_owned()));
    assert!(matches!(restore_next("/repo", "abc", dropping, Ok(output(0, ""))), StashRestoreStage::Done(Ok(()))));

    let gone = restore_next("/repo", "abc", StashRestoreStage::Listing, Ok(output(0, "stash@{0}\tother\n")));
    assert!(matches!(gone, StashRestoreStage::Done(Ok(()))));
}

#[test]
fn extract_switches_to_base_then_adds_the_worktree_and_applies_the_stash() {
    let git = Git::new(vec![]);
    let fs = Fs { target_exists: false, parent_fails: false };
    let dirs = Dirs { fail: false, created: RefCell::new(Vec::new()) };
    let staged = StagedExtractPlan { plan: plan(true), stash_oid: Some("abc".to_owned()) };
    let applied = apply_extract_git(&git, &fs, &dirs, staged).unwrap();
    assert_eq!(applied.target_path, "/repo/.worktree/topic");
    let runs = git.runs.borrow();
    assert_eq!(
        runs[runs.len() - 3..].to_vec(),
        vec![
            "/repo: checkout main".to_owned(),
            "/repo: worktree add /repo/.worktree/topic topic".to_owned(),
            "/repo/.worktree/topic: stash apply abc".to_owned(),
        ]
    );
}

#[test]
fn extract_missing_base_branch_is_reported_with_recovery_details() {
    let git = Git::new(vec![("show-ref --verify --quiet refs/heads/main", 1, "")]);
    let fs = Fs { target_exists: false, parent_fails: false };
    let dirs = Dirs { fail: false, created: RefCell::new(Vec::new()) };
    let staged = StagedExtractPlan { plan: plan(false), stash_oid: None };
    let error = apply_extract_git(&git, &fs, &dirs, staged).unwrap_err();
    assert_eq!(error.code, ErrorCode::WorktreeNotFound);
    assert_eq!(error.message, "local base branch was not found: main");
    assert_eq!(error.detail("originalBranch"), Some(&text("topic")));
    assert_eq!(error.detail("currentBranch"), Some(&text("topic")));
    assert_eq!(error.detail("stashOid"), None);
    let execution = error.execution.unwrap();
    assert_eq!(execution.phase, ExecutionPhase::Apply);
    assert_eq!(execution.state, ExecutionState::RecoveryRequired);
    assert_eq!(execution.recovery[0], ("stashOid".to_owned(), DetailValue::Null));
}

#[test]
fn extract_worktree_add_failure_switches_back_and_restores_the_stash() {
    let git = Git::new(vec![
        ("worktree add /repo/.worktree/topic topic", 1, ""),
        (STASH_LIST, 0, "stash@{0}\tabc\n"),
    ]);
    let fs = Fs { target_exists: false, parent_fails: false };
    let dirs = Dirs { fail: false, created: RefCell::new(Vec::new()) };
    let staged = StagedExtractPlan { plan: plan(true), stash_oid: Some("abc".to_owned()) };
    let error = apply_extract_git(&git, &fs, &dirs, staged).unwrap_err();
    assert!(git.ran("/repo: checkout topic"));
    assert!(git.ran("/repo: stash apply abc"));
    assert!(git.ran("/repo: stash drop stash@{0}"));
    assert!(!git.ran("/repo: worktree remove --force /repo/.worktree/topic"));
    assert_eq!(error.detail("currentBranch"), Some(&text("topic")));
    assert_eq!(error.detail("autoRestoreCompleted"), Some(&DetailValue::Bool(true)));
    let execution = error.execution.unwrap();
    assert_eq!(execution.state, ExecutionState::RolledBack);
    assert_eq!(execution.completed, vec!["rollbackExtract".to_owned()]);
    assert!(execution.recovery.is_empty());
}

#[test]
fn extract_failed_switch_back_is_left_for_recovery() {
    let git = Git::new(vec![("checkout topic", 1, "")]);
    let fs = Fs { target_exists: true, parent_fails: true };
    let dirs = Dirs { fail: false, created: RefCell::new(Vec::new()) };
    let staged = StagedExtractPlan { plan: plan(false), stash_oid: None };
    let error = apply_extract_git(&git, &fs, &dirs, staged).unwrap_err();
    assert_eq!(error.message, "cannot create parent");
    assert!(git.ran("/repo: worktree remove --force /repo/.worktree/topic"));
    assert_eq!(error.detail("autoRestoreFailed"), Some(&DetailValue::Bool(true)));
    assert_eq!(error.detail("currentBranch"), Some(&text("main")));
    assert_eq!(error.detail("rollbackFailures"), Some(&DetailValue::List(vec![text("git command failed")])));
    assert_eq!(error.execution.unwrap().state, ExecutionState::RecoveryRequired);
}

fn applied() -> ExtractGitApplied {
    ExtractGitApplied {
        plan: plan(true),
        stash_oid: Some("abc".to_owned()),
        target_path: "/repo/.worktree/topic".to_owned(),
    }
}

#[test]
fn extract_finalize_drops_the_applied_stash() {
    let git = Git::new(vec![(STASH_LIST, 0, "stash@{3}\tabc\n")]);
    let result = finalize_extract_state(&git, &Lifecycle { fail: false }, applied()).unwrap();
    assert_eq!(result.branch, "topic");
    assert_eq!(result.stash_oid, Some("abc".to_owned()));
    assert!(git.ran("/repo: stash drop stash@{3}"));
}

#[test]
fn extract_finalize_record_failure_asks_for_recovery() {
    let git = Git::new(vec![]);
    let error = finalize_extract_state(&git, &Lifecycle { fail: true }, applied()).unwrap_err();
    assert_eq!(error.detail("recoveryStashOid"), Some(&text("abc")));
    assert_eq!(error.detail("recoveryWorktreePath"), Some(&text("/repo/.worktree/topic")));
    let execution = error.execution.unwrap();
    assert_eq!(execution.phase, ExecutionPhase::Finalize);
    assert_eq!(execution.state, ExecutionState::RecoveryRequired);
    assert_eq!(execution.completed, vec!["apply".to_owned()]);
    assert!(git.runs.borrow().is_empty());
}
