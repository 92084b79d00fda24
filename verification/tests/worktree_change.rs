use std::cell::RefCell;

use vde_worktree::change::{
    apply_use, git_worktree_dirty, prepare_extract, prepare_mv, prepare_use, validate_branch_ref,
    LifecycleRecords, SnapshotWorktree,
};
use vde_worktree::create::TargetFilesystem;
use vde_worktree::error::{CliError, DetailValue, ErrorCode};
use vde_worktree::git::GitCli;
use vde_worktree::plans::{ExtractPlan, MvPlan, UseInvocation, UseOptions, UseSharing};
use vde_worktree::probes::CreateMutationGit;
use vde_worktree::process::{ProcessCommand, ProcessError, ProcessOutput, ProcessRunner};

/// A runner for checks that must be decided before any process starts.
struct NoProcesses;

impl ProcessRunner for NoProcesses {
    fn run(&self, command: &ProcessCommand) -> Result<ProcessOutput, ProcessError> {
        panic!("no process may start here, but {} was run", command.program)
    }
}

/// A Git double that answers by the arguments and records every run.
struct ScriptedGit {
    replies: Vec<(Vec<String>, ProcessOutput)>,
    runs: RefCell<Vec<Vec<String>>>,
}

impl ScriptedGit {
    fn new(replies: Vec<(&[&str], ProcessOutput)>) -> Self {
        ScriptedGit {
            replies: replies
                .into_iter()
                .map(|(args, reply)| (args.iter().map(|arg| (*arg).to_owned()).collect(), reply))
                .collect(),
            runs: RefCell::new(Vec::new()),
        }
    }

    fn ran(&self, args: &[&str]) -> bool {
        self.runs.borrow().iter().any(|run| run.iter().map(String::as_str).eq(args.iter().copied()))
    }
}

impl CreateMutationGit for ScriptedGit {
    fn run_git(&self, _cwd: &str, args: &[String]) -> Result<ProcessOutput, CliError> {
        self.runs.borrow_mut().push(args.to_vec());
        for (expected, reply) in &self.replies {
            if expected.as_slice() == args {
                return Ok(reply.clone());
            }
        }
        Ok(status(1, b""))
    }

    fn run_git_checked(&self, cwd: &str, args: &[String]) -> Result<ProcessOutput, CliError> {
        let output = self.run_git(cwd, args)?;
        if output.exit_code == Some(0) {
            Ok(output)
        } else {
            Err(CliError::new(ErrorCode::GitCommandFailed, "git command failed"))
        }
    }
}

struct Targets {
    taken: Vec<String>,
    invalid_lifecycle: Option<(String, String)>,
}

impl Targets {
    fn free() -> Self {
        Targets { taken: Vec::new(), invalid_lifecycle: None }
    }
}

impl TargetFilesystem for Targets {
    fn ensure_contained(&self, _managed_root: &str, _path: &str) -> Result<(), CliError> {
        Ok(())
    }

    fn path_exists(&self, path: &str) -> Result<bool, CliError> {
        Ok(self.taken.iter().any(|taken| taken == path))
    }

    fn ensure_target_writable(&self, path: &str) -> Result<(), CliError> {
        self.ensure_target_path_empty(path)
    }

    fn ensure_target_path_empty(&self, path: &str) -> Result<(), CliError> {
        if self.taken.iter().any(|taken| taken == path) {
            Err(CliError::new(ErrorCode::TargetPathNotEmpty, "target path is not empty"))
        } else {
            Ok(())
        }
    }

    fn create_parent(&self, _path: &str) -> Result<(), CliError> {
        Ok(())
    }

    fn prune_empty_target_parents(&self, _target: &str, _managed_root: &str) {}

    fn same_location(&self, left: &str, right: &str) -> bool {
        left == right
    }
}

impl LifecycleRecords for Targets {
    fn invalid_lifecycle(&self, _repo_root: &str, _branch: &str) -> Option<(String, String)> {
        self.invalid_lifecycle.clone()
    }
}

fn status(code: i32, stdout: &[u8]) -> ProcessOutput {
    ProcessOutput { stdout: stdout.to_vec(), exit_code: Some(code), ..Default::default() }
}

fn worktree(path: &str, branch: Option<&str>, dirty: bool) -> SnapshotWorktree {
    SnapshotWorktree { path: path.to_owned(), branch: branch.map(str::to_owned), dirty }
}

fn main_base() -> Option<String> {
    Some("main".to_owned())
}

#[test]
fn mv_rejects_primary_and_handles_same_name_without_git_or_hooks() {
    let adapter = GitCli::new(NoProcesses);
    let fs = Targets::free();
    let primary = [worktree("/repo", Some("main"), false)];
    let error = prepare_mv(&adapter, &fs, "/repo", "/repo", "/repo/.worktree", &primary, &main_base(), "renamed", "/new")
        .unwrap_err();
    assert_eq!(error.code, ErrorCode::InvalidArgument);

    let managed = "/repo/.worktree/feature/a";
    let snapshot = [worktree(managed, Some("feature/a"), false)];
    let noop = prepare_mv(&adapter, &fs, "/repo", managed, "/repo/.worktree", &snapshot, &main_base(), "feature/a", "/ignored")
        .unwrap();
    assert!(!noop.requires_hooks());
    assert_eq!(noop.target_path(), managed);
}

#[test]
fn mv_checks_the_current_location_and_the_new_name() {
    let git = ScriptedGit::new(vec![(&["check-ref-format", "--branch", "feature/b"], status(0, b""))]);
    let fs = Targets::free();
    let worktrees = [
        worktree("/repo", Some("main"), false),
        worktree("/repo/.worktree/feature/a", Some("feature/a"), false),
        worktree("/elsewhere", None, false),
    ];
    let error = prepare_mv(&git, &fs, "/repo", "/nowhere", "/repo/.worktree", &worktrees, &main_base(), "feature/b", "/repo/.worktree/feature/b")
        .unwrap_err();
    assert_eq!(error.code, ErrorCode::WorktreeNotFound);
    assert_eq!(error.detail("currentWorktreeRoot"), Some(&DetailValue::Text("/nowhere".to_owned())));
    let error = prepare_mv(&git, &fs, "/repo", "/elsewhere", "/repo/.worktree", &worktrees, &main_base(), "feature/b", "/repo/.worktree/feature/b")
        .unwrap_err();
    assert_eq!(error.code, ErrorCode::DetachedHead);
    let error = prepare_mv(&git, &fs, "/repo", "/repo/.worktree/feature/a", "/repo/.worktree", &worktrees, &main_base(), "main", "/repo/.worktree/main")
        .unwrap_err();
    assert_eq!(error.code, ErrorCode::InvalidArgument);
    assert_eq!(error.message, "invalid branch name: main");

    let plan = prepare_mv(&git, &fs, "/repo", "/repo/.worktree/feature/a", "/repo/.worktree", &worktrees, &main_base(), "feature/b", "/repo/.worktree/feature/b")
        .unwrap();
    match plan {
        MvPlan::Apply(plan) => {
            assert_eq!(plan.old_branch, "feature/a");
            assert_eq!(plan.new_branch, "feature/b");
            assert_eq!(plan.current_path, "/repo/.worktree/feature/a");
            assert_eq!(plan.target_path, "/repo/.worktree/feature/b");
        }
        other => panic!("unexpected plan {other:?}"),
    }
    let error = prepare_mv(&git, &fs, "/repo", "/repo/.worktree/feature/a", "/repo/.worktree", &worktrees, &None, "feature/b", "/repo/.worktree/feature/b")
        .unwrap_err();
    assert_eq!(error.message, "mv requires a resolved base branch before mutation");
    let error = prepare_mv(&git, &fs, "/repo", "/repo/.worktree/feature/a", "/repo/.worktree", &worktrees, &main_base(), "feature/b", "/other/feature/b")
        .unwrap_err();
    assert_eq!(error.message, "target path does not match the validated managed path");
}

#[test]
fn branch_ref_check_keeps_gits_complaint() {
    let git = ScriptedGit::new(vec![(&["check-ref-format", "--branch", "a..b"], ProcessOutput {
        stderr: b"fatal: 'a..b' is not a valid branch name".to_vec(),
        exit_code: Some(1),
        ..Default::default()
    })]);
    let error = validate_branch_ref(&git, "/repo", "a..b").unwrap_err();
    assert_eq!(error.code, ErrorCode::InvalidArgument);
    assert_eq!(error.detail("stderr"), Some(&DetailValue::Text("fatal: 'a..b' is not a valid branch name".to_owned())));
}

#[test]
fn extract_runs_only_from_the_primary_worktree_on_a_non_base_branch() {
    let git = ScriptedGit::new(vec![(&["show-ref", "--verify", "--quiet", "refs/heads/main"], status(0, b""))]);
    let fs = Targets::free();
    let worktrees = [worktree("/repo", Some("feature"), true)];
    let error = prepare_extract(&git, &fs, &fs, "/repo", "/repo/.worktree/x", "/repo/.worktree", &worktrees, "main", "/repo/.worktree/feature", false)
        .unwrap_err();
    assert_eq!(error.message, "extract currently supports only the primary worktree");
    let error = prepare_extract(&git, &fs, &fs, "/repo", "/repo", "/repo/.worktree", &worktrees, "feature", "/repo/.worktree/feature", false)
        .unwrap_err();
    assert_eq!(error.message, "extract cannot target the base branch");
    let error = prepare_extract(&git, &fs, &fs, "/repo", "/repo", "/repo/.worktree", &worktrees, "main", "/repo/.worktree/feature", false)
        .unwrap_err();
    assert_eq!(error.code, ErrorCode::DirtyWorktree);

    let plan = prepare_extract(&git, &fs, &fs, "/repo", "/repo", "/repo/.worktree", &worktrees, "main", "/repo/.worktree/feature", true)
        .unwrap();
    assert_eq!(
        plan,
        ExtractPlan {
            repo_root: "/repo".to_owned(),
            managed_root: "/repo/.worktree".to_owned(),
            branch: "feature".to_owned(),
            base_branch: "main".to_owned(),
            target_path: "/repo/.worktree/feature".to_owned(),
            dirty: true,
        }
    );

    let broken = Targets { invalid_lifecycle: Some(("/repo/.vde/worktree/state/feature.json".to_owned(), "bad".to_owned())), ..Targets::free() };
    let error = prepare_extract(&git, &broken, &broken, "/repo", "/repo", "/repo/.worktree", &worktrees, "main", "/repo/.worktree/feature", true)
        .unwrap_err();
    assert_eq!(error.code, ErrorCode::InternalError);
    assert_eq!(error.detail("reason"), Some(&DetailValue::Text("bad".to_owned())));
}

#[test]
fn extract_needs_a_local_base_branch_checked_out_nowhere_else() {
    let fs = Targets::free();
    let missing = ScriptedGit::new(vec![]);
    let worktrees = [worktree("/repo", Some("feature"), false), worktree("/other", Some("main"), false)];
    let error = prepare_extract(&missing, &fs, &fs, "/repo", "/repo", "/repo/.worktree", &worktrees, "main", "/repo/.worktree/feature", false)
        .unwrap_err();
    assert_eq!(error.code, ErrorCode::WorktreeNotFound);
    assert_eq!(error.message, "local base branch was not found: main");

    let present = ScriptedGit::new(vec![(&["show-ref", "--verify", "--quiet", "refs/heads/main"], status(0, b""))]);
    let error = prepare_extract(&present, &fs, &fs, "/repo", "/repo", "/repo/.worktree", &worktrees, "main", "/repo/.worktree/feature", false)
        .unwrap_err();
    assert_eq!(error.code, ErrorCode::BranchInUse);
    assert_eq!(error.message, "base branch 'main' is checked out in another worktree");
    assert_eq!(error.detail("path"), Some(&DetailValue::Text("/other".to_owned())));
}

#[test]
fn use_enforces_non_tty_dirty_and_shared_guards_before_apply() {
    let git = ScriptedGit::new(vec![
        (&["show-ref", "--verify", "--quiet", "refs/heads/feature/use"], status(0, b"")),
        (&["status", "--porcelain"], status(0, b"")),
        (&["checkout", "feature/use"], status(0, b"")),
    ]);
    let repo = "/repo";
    let shared = "/repo/.worktree/feature/use";
    let clean = [worktree(repo, Some("main"), false), worktree(shared, Some("feature/use"), false)];
    let error = prepare_use(&git, repo, &clean, "feature/use", UseOptions::default()).unwrap_err();
    assert_eq!(error.code, ErrorCode::UnsafeFlagRequired);
    let error = prepare_use(
        &git,
        repo,
        &clean,
        "feature/use",
        UseOptions {
            invocation: UseInvocation::NonInteractive { allow_agent: true, allow_unsafe: true },
            ..UseOptions::default()
        },
    )
    .unwrap_err();
    assert_eq!(error.code, ErrorCode::BranchInUse);

    let dirty = [worktree(repo, Some("main"), true)];
    let error = prepare_use(
        &git,
        repo,
        &dirty,
        "feature/use",
        UseOptions { invocation: UseInvocation::Interactive, sharing: UseSharing::Allow },
    )
    .unwrap_err();
    assert_eq!(error.code, ErrorCode::DirtyWorktree);

    let ordinary = [worktree(repo, Some("main"), false)];
    let plan = prepare_use(
        &git,
        repo,
        &ordinary,
        "feature/use",
        UseOptions { invocation: UseInvocation::Interactive, sharing: UseSharing::Reject },
    )
    .unwrap();
    let result = apply_use(&git, plan).unwrap();
    assert!(!result.shared);
    assert!(git.ran(&["checkout", "feature/use"]));
}

#[test]
fn use_of_a_shared_branch_checks_it_out_past_the_other_worktree() {
    let git = ScriptedGit::new(vec![
        (&["show-ref", "--verify", "--quiet", "refs/heads/feature/use"], status(0, b"")),
        (&["status", "--porcelain"], status(0, b"\n")),
        (&["checkout", "--ignore-other-worktrees", "feature/use"], status(0, b"")),
    ]);
    let worktrees = [worktree("/repo", Some("main"), false), worktree("/w/use", Some("feature/use"), false)];
    let plan = prepare_use(
        &git,
        "/repo",
        &worktrees,
        "feature/use",
        UseOptions { invocation: UseInvocation::Interactive, sharing: UseSharing::Allow },
    )
    .unwrap();
    assert_eq!(plan.shared_worktree.as_deref(), Some("/w/use"));
    let result = apply_use(&git, plan).unwrap();
    assert!(result.shared);
    assert_eq!(result.path, "/repo");
    assert!(git.ran(&["checkout", "--ignore-other-worktrees", "feature/use"]));
}

#[test]
fn a_worktree_is_dirty_when_status_prints_more_than_whitespace() {
    let clean = ScriptedGit::new(vec![(&["status", "--porcelain"], status(0, b" \n"))]);
    assert!(!git_worktree_dirty(&clean, "/repo").unwrap());
    let dirty = ScriptedGit::new(vec![(&["status", "--porcelain"], status(0, b" M file\n"))]);
    assert!(git_worktree_dirty(&dirty, "/repo").unwrap());
    let failing = ScriptedGit::new(vec![(&["status", "--porcelain"], status(128, b""))]);
    let error = git_worktree_dirty(&failing, "/repo").unwrap_err();
    assert_eq!(error.code, ErrorCode::GitCommandFailed);
    assert_eq!(error.detail("exitCode"), Some(&DetailValue::Int(128)));
}
