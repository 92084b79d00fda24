use std::cell::RefCell;

use vde_worktree::create::TargetFilesystem;
use vde_worktree::error::{CliError, DetailValue, ErrorCode, ExecutionState};
use vde_worktree::plans::{MetadataRenameOutcome, MvApplyPlan, MvGitApplied, MvPlan, MvResult, StagedMvPlan};
use vde_worktree::probes::CreateMutationGit;
use vde_worktree::process::ProcessOutput;
use vde_worktree::rename::{
    apply_mv_git, finalize_mv_state, rollback_mv_after_pre_hook_failure, stage_mv_for_hook, RenameTransaction,
};

fn output(code: i32) -> ProcessOutput {
    ProcessOutput {
        exit_code: Some(code),
        stdout: Vec::new(),
        stderr: Vec::new(),
        timed_out: false,
        signal: None,
        stdout_truncated: false,
        stderr_truncated: false,
    }
}

/// A Git double: `show-ref` answers whether the new branch exists; checked runs whose
/// joined arguments are listed fail.
struct Git {
    branch_exists: bool,
    failing: Vec<&'static str>,
    runs: RefCell<Vec<String>>,
}

impl Git {
    fn new(branch_exists: bool, failing: Vec<&'static str>) -> Self {
        Git { branch_exists, failing, runs: RefCell::new(Vec::new()) }
    }
}

impl CreateMutationGit for Git {
    fn run_git(&self, cwd: &str, args: &[String]) -> Result<ProcessOutput, CliError> {
        let joined = args.join(" ");
        if args.first().map(String::as_str) == Some("show-ref") {
            self.runs.borrow_mut().push(joined);
            return Ok(output(if self.branch_exists { 0 } else { 1 }));
        }
        self.runs.borrow_mut().push(format!("{cwd}: {joined}"));
        Ok(output(if self.failing.iter().any(|failing| *failing == joined) { 1 } else { 0 }))
    }

    fn run_git_checked(&self, cwd: &str, args: &[String]) -> Result<ProcessOutput, CliError> {
        self.run_git(cwd, args)
    }
}

struct Fs;

impl TargetFilesystem for Fs {
    fn ensure_contained(&self, _managed_root: &str, _path: &str) -> Result<(), CliError> {
        Ok(())
    }

    fn path_exists(&self, _path: &str) -> Result<bool, CliError> {
        Ok(false)
    }

    fn ensure_target_writable(&self, _path: &str) -> Result<(), CliError> {
        Ok(())
    }

    fn ensure_target_path_empty(&self, _path: &str) -> Result<(), CliError> {
        Ok(())
    }

    fn create_parent(&self, _path: &str) -> Result<(), CliError> {
        Ok(())
    }

    fn prune_empty_target_parents(&self, _target: &str, _managed_root: &str) {}

    fn same_location(&self, left: &str, right: &str) -> bool {
        left == right
    }
}

/// A metadata transaction double that fails the listed steps and records the calls.
struct Transaction {
    failing: Vec<&'static str>,
    calls: RefCell<Vec<&'static str>>,
}

impl Transaction {
    fn new(failing: Vec<&'static str>) -> Self {
        Transaction { failing, calls: RefCell::new(Vec::new()) }
    }

    fn step(&self, name: &'static str) -> Result<(), CliError> {
        self.calls.borrow_mut().push(name);
        if self.failing.contains(&name) {
            Err(CliError::new(ErrorCode::InternalError, &format!("{name} failed")))
        } else {
            Ok(())
        }
    }
}

impl RenameTransaction for Transaction {
    fn stage(&self, _plan: &MvApplyPlan) -> Result<(), CliError> {
        self.step("stage")
    }

    fn rollback_staged(&self, _plan: &MvApplyPlan) -> Result<(), CliError> {
        self.step("rollback_staged")
    }

    fn refresh_lifecycle(&self, _repo_root: &str, _plan: &MvApplyPlan) -> Result<(), CliError> {
        self.step("refresh")
    }

    fn mark_branch_renamed(&self, _plan: &MvApplyPlan) -> Result<(), CliError> {
        self.step("mark_renamed")
    }

    fn mark_worktree_moved(&self, _plan: &MvApplyPlan) -> Result<(), CliError> {
        self.step("mark_moved")
    }

    fn commit(&self, _plan: &MvApplyPlan) -> Result<MetadataRenameOutcome, CliError> {
        self.step("commit").map(|()| MetadataRenameOutcome { lock_moved: true, lifecycle_moved: false })
    }

    fn revalidate_target(&self, plan: &MvApplyPlan) -> Result<String, CliError> {
        self.step("revalidate").map(|()| plan.target_path.clone())
    }
}

fn plan() -> MvApplyPlan {
    MvApplyPlan {
        old_branch: "old".to_owned(),
        new_branch: "new".to_owned(),
        current_path: "/repo/.worktree/old".to_owned(),
        target_path: "/repo/.worktree/new".to_owned(),
    }
}

fn staged() -> StagedMvPlan {
    StagedMvPlan::Apply(Box::new(plan()))
}

#[test]
fn mv_renames_the_branch_then_moves_the_worktree() {
    let git = Git::new(false, vec![]);
    let transaction = Transaction::new(vec![]);
    let applied = apply_mv_git(&git, &Fs, &transaction, "/repo", staged()).unwrap();
    assert_eq!(
        git.runs.borrow()[1..].to_vec(),
        vec![
            "/repo/.worktree/old: branch -m old new".to_owned(),
            "/repo: worktree move /repo/.worktree/old /repo/.worktree/new".to_owned(),
        ]
    );
    assert_eq!(*transaction.calls.borrow(), vec!["refresh", "revalidate", "mark_renamed", "mark_moved"]);
    let result = finalize_mv_state(&transaction, applied).unwrap();
    assert_eq!(result, MvResult {
            branch: "new".to_owned(),
            path: "/repo/.worktree/new".to_owned(),
            metadata: Some(MetadataRenameOutcome { lock_moved: true, lifecycle_moved: false }),
        });
}

#[test]
fn mv_stops_when_the_new_branch_appeared_during_hooks() {
    let git = Git::new(true, vec![]);
    let transaction = Transaction::new(vec![]);
    let error = apply_mv_git(&git, &Fs, &transaction, "/repo", staged()).unwrap_err();
    assert_eq!(error.code, ErrorCode::BranchAlreadyExists);
    assert_eq!(error.message, "branch already exists locally: new");
    assert_eq!(error.detail("branch"), Some(&DetailValue::Text("new".to_owned())));
    assert_eq!(*transaction.calls.borrow(), vec!["refresh", "rollback_staged"]);
}

#[test]
fn mv_move_failure_renames_the_branch_back() {
    let git = Git::new(false, vec!["worktree move /repo/.worktree/old /repo/.worktree/new"]);
    let transaction = Transaction::new(vec![]);
    let error = apply_mv_git(&git, &Fs, &transaction, "/repo", staged()).unwrap_err();
    assert_eq!(error.message, "git command failed");
    assert_eq!(error.detail("exitCode"), Some(&DetailValue::Int(1)));
    assert_eq!(git.runs.borrow().last().unwrap(), "/repo/.worktree/old: branch -m new old");
    assert_eq!(transaction.calls.borrow().last(), Some(&"rollback_staged"));
    let execution = error.execution.unwrap();
    assert_eq!(execution.state, ExecutionState::RolledBack);
    assert_eq!(execution.completed, vec!["rollbackRename".to_owned()]);
}

#[test]
fn mv_failed_branch_restore_is_left_for_recovery() {
    let git = Git::new(false, vec!["branch -m new old"]);
    let transaction = Transaction::new(vec!["mark_renamed"]);
    let error = apply_mv_git(&git, &Fs, &transaction, "/repo", staged()).unwrap_err();
    assert_eq!(error.message, "mark_renamed failed");
    assert_eq!(
        error.detail("rollbackFailures"),
        Some(&DetailValue::List(vec![DetailValue::Text("git command failed".to_owned())]))
    );
    assert_eq!(error.detail("repoRoot"), Some(&DetailValue::Text("/repo".to_owned())));
    assert!(!transaction.calls.borrow().contains(&"rollback_staged"));
    let execution = error.execution.unwrap();
    assert_eq!(execution.state, ExecutionState::RecoveryRequired);
    assert_eq!(execution.recovery[0], ("sourcePath".to_owned(), DetailValue::Text("/repo/.worktree/old".to_owned())));
    assert_eq!(execution.recovery[1], ("oldBranch".to_owned(), DetailValue::Text("old".to_owned())));
    assert_eq!(execution.recovery[2], ("newBranch".to_owned(), DetailValue::Text("new".to_owned())));
}

#[test]
fn mv_metadata_failure_after_move_moves_the_worktree_back() {
    let git = Git::new(false, vec![]);
    let transaction = Transaction::new(vec!["mark_moved"]);
    let error = apply_mv_git(&git, &Fs, &transaction, "/repo", staged()).unwrap_err();
    let runs = git.runs.borrow();
    assert_eq!(runs[runs.len() - 2], "/repo: worktree move /repo/.worktree/new /repo/.worktree/old");
    assert_eq!(runs[runs.len() - 1], "/repo/.worktree/old: branch -m new old");
    assert_eq!(error.detail("repoRoot"), None);
    assert_eq!(error.execution.unwrap().state, ExecutionState::RolledBack);
}

#[test]
fn mv_to_the_same_name_stages_and_applies_nothing() {
    let transaction = Transaction::new(vec![]);
    let same = MvResult { branch: "old".to_owned(), path: "/repo/.worktree/old".to_owned(), metadata: None };
    let staged = stage_mv_for_hook(&transaction, MvPlan::Noop(same.clone())).unwrap();
    assert!(rollback_mv_after_pre_hook_failure(&transaction, &staged).is_ok());
    let git = Git::new(false, vec![]);
    let applied = apply_mv_git(&git, &Fs, &transaction, "/repo", staged).unwrap();
    assert_eq!(applied, MvGitApplied::Noop(same.clone()));
    assert_eq!(finalize_mv_state(&transaction, applied).unwrap(), same);
    assert!(transaction.calls.borrow().is_empty());
    assert!(git.runs.borrow().is_empty());
}

#[test]
fn mv_stage_failure_is_returned() {
    let transaction = Transaction::new(vec!["stage"]);
    let error = stage_mv_for_hook(&transaction, MvPlan::Apply(Box::new(plan()))).unwrap_err();
    assert_eq!(error.message, "stage failed");
}
