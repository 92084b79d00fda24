use std::cell::RefCell;

use vde_worktree::create::TargetFilesystem;
use vde_worktree::error::{CliError, DetailValue, ErrorCode, ExecutionPhase, ExecutionReport, ExecutionState};
use vde_worktree::finalize::{creation_undo_error, finalize_worktree_state, rollback_created_worktree, WorktreeFinalization};
use vde_worktree::plans::{WorktreeDisposition, WorktreeGitApplied};
use vde_worktree::probes::CreateMutationGit;
use vde_worktree::process::ProcessOutput;

/// A Git double whose checked runs fail for the listed first arguments.
struct Git {
    failing: Vec<&'static str>,
    runs: RefCell<Vec<Vec<String>>>,
}

impl Git {
    fn new(failing: Vec<&'static str>) -> Self {
        Git { failing, runs: RefCell::new(Vec::new()) }
    }
}

fn ok_output() -> ProcessOutput {
    ProcessOutput {
        exit_code: Some(0),
        stdout: Vec::new(),
        stderr: Vec::new(),
        timed_out: false,
        signal: None,
        stdout_truncated: false,
        stderr_truncated: false,
    }
}

impl CreateMutationGit for Git {
    fn run_git(&self, _cwd: &str, args: &[String]) -> Result<ProcessOutput, CliError> {
        self.runs.borrow_mut().push(args.to_vec());
        Ok(ok_output())
    }

    fn run_git_checked(&self, _cwd: &str, args: &[String]) -> Result<ProcessOutput, CliError> {
        self.runs.borrow_mut().push(args.to_vec());
        if self.failing.iter().any(|first| args.first().map(String::as_str) == Some(*first)) {
            Err(CliError::new(ErrorCode::GitCommandFailed, &format!("{} failed", args[0])))
        } else {
            Ok(ok_output())
        }
    }
}

struct Fs {
    pruned: RefCell<Vec<(String, String)>>,
}

impl TargetFilesystem for Fs {
    fn ensure_contained(&self, _managed_root: &str, _path: &str) -> Result<(), CliError> {
        Ok(())
    }

    fn path_exists(&self, _path: &str) -> Result<bool, CliError> {
        Ok(false)
    }

    fn ensure_target_writable(&self, _path: &str) -> Result<(), CliError> {
        Ok(())
    }

    fn ensure_target_path_empty(&self, _path: &str) -> Result<(), CliError> {
        Ok(())
    }

    fn create_parent(&self, _path: &str) -> Result<(), CliError> {
        Ok(())
    }

    fn prune_empty_target_parents(&self, target: &str, managed_root: &str) {
        self.pruned.borrow_mut().push((target.to_owned(), managed_root.to_owned()));
    }

    fn same_location(&self, left: &str, right: &str) -> bool {
        left == right
    }
}

struct Work {
    copy: RefCell<Option<CliError>>,
    record: RefCell<Option<CliError>>,
    recorded: RefCell<bool>,
}

impl Work {
    fn new(copy: Option<CliError>, record: Option<CliError>) -> Self {
        Work { copy: RefCell::new(copy), record: RefCell::new(record), recorded: RefCell::new(false) }
    }
}

impl WorktreeFinalization for Work {
    fn copy_worktree_include(&self, _repo_root: &str, _managed_root: &str, _target: &str) -> Result<(), CliError> {
        match self.copy.borrow_mut().take() {
            Some(error) => Err(error),
            None => Ok(()),
        }
    }

    fn merge_lifecycle_observation(&self, _repo_root: &str, _branch: &str, _base_branch: &str) -> Result<(), CliError> {
        *self.recorded.borrow_mut() = true;
        match self.record.borrow_mut().take() {
            Some(error) => Err(error),
            None => Ok(()),
        }
    }
}

fn applied(created: bool) -> WorktreeGitApplied {
    WorktreeGitApplied {
        repo_root: "/repo".to_owned(),
        managed_worktree_root: Some("/repo/.worktree".to_owned()),
        branch: "topic".to_owned(),
        path: "/repo/.worktree/topic".to_owned(),
        base_branch: "main".to_owned(),
        disposition: Some(if created { WorktreeDisposition::Created } else { WorktreeDisposition::Existing }),
        created_branch_oid: if created { Some("abc123".to_owned()) } else { None },
        remove_worktree_on_state_failure: created,
    }
}

fn fs() -> Fs {
    Fs { pruned: RefCell::new(Vec::new()) }
}

#[test]
fn finalize_returns_the_worktree_after_copy_and_record() {
    let git = Git::new(vec![]);
    let work = Work::new(None, None);
    let result = finalize_worktree_state(&git, &fs(), &work, applied(true)).unwrap();
    assert_eq!(result.branch, "topic");
    assert_eq!(result.path, "/repo/.worktree/topic");
    assert_eq!(result.disposition, Some(WorktreeDisposition::Created));
    assert!(*work.recorded.borrow());
    assert!(git.runs.borrow().is_empty());
}

#[test]
fn finalize_include_copy_failure_removes_the_created_worktree_and_branch() {
    let git = Git::new(vec![]);
    let filesystem = fs();
    let mut copy_error = CliError::new(ErrorCode::InternalError, "copy failed");
    copy_error.insert_detail("recoveryRequired", DetailValue::Bool(true));
    copy_error.insert_detail("worktreeIncludePath", DetailValue::Text("/repo/.worktreeinclude".to_owned()));
    let work = Work::new(Some(copy_error), None);
    let error = finalize_worktree_state(&git, &filesystem, &work, applied(true)).unwrap_err();
    assert!(!*work.recorded.borrow());
    let runs = git.runs.borrow();
    assert_eq!(runs[0], vec!["worktree", "remove", "--force", "/repo/.worktree/topic"]);
    assert_eq!(runs[1], vec!["update-ref", "-d", "refs/heads/topic", "abc123"]);
    assert_eq!(error.message, "copy failed");
    assert_eq!(error.detail("recoveryRequired"), None);
    assert_eq!(error.detail("worktreeIncludePath"), Some(&DetailValue::Text("/repo/.worktreeinclude".to_owned())));
    assert_eq!(error.detail("worktreeRolledBack"), Some(&DetailValue::Bool(true)));
    let execution = error.execution.unwrap();
    assert_eq!(execution.state, ExecutionState::RolledBack);
    assert_eq!(execution.completed, vec!["removeCreatedWorktree".to_owned()]);
    assert_eq!(
        filesystem.pruned.borrow().as_slice(),
        &[("/repo/.worktree/topic".to_owned(), "/repo/.worktree".to_owned())]
    );
}

#[test]
fn finalize_record_failure_of_an_existing_worktree_is_returned_as_it_is() {
    let git = Git::new(vec![]);
    let work = Work::new(None, Some(CliError::new(ErrorCode::InternalError, "state write failed")));
    let error = finalize_worktree_state(&git, &fs(), &work, applied(false)).unwrap_err();
    assert_eq!(error.message, "state write failed");
    assert!(error.execution.is_none());
    assert!(git.runs.borrow().is_empty());
}

#[test]
fn failed_worktree_removal_is_left_for_recovery() {
    let git = Git::new(vec!["worktree", "update-ref"]);
    let filesystem = fs();
    let original = CliError::new(ErrorCode::InternalError, "state write failed");
    let error = rollback_created_worktree(
        &git,
        &filesystem,
        "/repo",
        "/repo/.worktree/topic",
        "/repo/.worktree",
        "topic",
        Some("abc123"),
        original,
    );
    let failures = DetailValue::List(vec![
        DetailValue::Text("worktree failed".to_owned()),
        DetailValue::Text("update-ref failed".to_owned()),
    ]);
    assert_eq!(error.detail("worktreeRollbackFailures"), Some(&failures));
    assert_eq!(error.detail("worktreeRolledBack"), None);
    let execution = error.execution.unwrap();
    assert_eq!(execution.state, ExecutionState::RecoveryRequired);
    assert_eq!(
        execution.recovery,
        vec![
            ("worktreePath".to_owned(), DetailValue::Text("/repo/.worktree/topic".to_owned())),
            ("branch".to_owned(), DetailValue::Text("topic".to_owned())),
            ("rollbackFailures".to_owned(), failures),
        ]
    );
}

#[test]
fn undo_keeps_the_phase_and_completed_steps_of_the_error() {
    let mut original = CliError::new(ErrorCode::InternalError, "copy failed");
    original.execution = Some(ExecutionReport {
        phase: ExecutionPhase::Finalize,
        state: ExecutionState::Unknown,
        completed: vec!["apply".to_owned()],
        recovery: vec![("recoveryPath".to_owned(), DetailValue::Text("/tx".to_owned()))],
    });
    let error = creation_undo_error(original, "/t", "b", Ok(()), None);
    let execution = error.execution.unwrap();
    assert_eq!(execution.phase, ExecutionPhase::Finalize);
    assert_eq!(execution.completed, vec!["apply".to_owned(), "removeCreatedWorktree".to_owned()]);
    assert!(execution.recovery.is_empty());
    assert_eq!(execution.state, ExecutionState::RolledBack);
}
